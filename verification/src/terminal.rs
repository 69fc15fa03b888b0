//! The terminal: a grid of tiles that is written glyph by glyph or string by
//! string, and read back the same way.
//!
//! A function that reads or writes the tile at a position takes only
//! positions of the terminal: that is its precondition, and `in_bounds` tells
//! which positions those are. Writing a string is the exception: it takes
//! any anchor, and its contract says what of the text reaches the terminal.

use sark_grids::Grid;
use vstd::prelude::*;

use crate::border::Border;
use crate::color::ColorFormat;
use crate::formatting::{StringFormatter, TileFormat, TileFormatter};
use crate::grid::{
    grid_clone, grid_column, grid_empty, grid_filled, grid_get, grid_get_mut, grid_in_bounds,
    grid_items, grid_row, grid_row_mut, grid_rows, grid_side_index, grid_size, grid_slice,
    grid_slice_mut, grid_tiles, grid_transform_itl, grid_transform_lti,
};
use crate::layout::{
    chars_of, cut, line_len, line_spans, line_start, share, spans_within, string_of,
    string_written, text_lines, top_row, write_lines, write_run,
};
use crate::point::{
    anchor_halves, halves_of, pivot_coordinate, pivot_coordinate_wide, pivoted, GridPoint, Side,
};
use crate::tile::Tile;

verus! {

/// A rectangle of tiles, given by the tile at its centre and its size.
#[derive(Clone, Copy, Debug, PartialEq, Eq)]
pub struct GridBounds {
    pub center: [i32; 2],
    pub size: [u32; 2],
}

/// A grid of tiles. Positions count from the bottom left corner, and the
/// tiles are kept row by row from the bottom row up.
#[derive(Debug)]
pub struct Terminal {
    tiles: Grid<Tile>,
    size: [u32; 2],
    /// The tile that a cleared position gets.
    pub clear_tile: Tile,
    border: Option<Border>,
}

impl Terminal {
    /// The tiles, row by row from the bottom, each row from the left.
    pub closed spec fn view(&self) -> Seq<Tile> {
        grid_items(self.tiles)
    }

    /// The number of columns.
    pub closed spec fn spec_width(&self) -> nat {
        self.size[0] as nat
    }

    /// The number of rows.
    pub closed spec fn spec_height(&self) -> nat {
        self.size[1] as nat
    }

    /// The border, if the terminal has one.
    pub closed spec fn spec_border(&self) -> Option<Border> {
        self.border
    }

    /// The tile that a cleared position gets.
    pub closed spec fn spec_clear_tile(&self) -> Tile {
        self.clear_tile
    }

    /// The grid was made with the size that the terminal reports.
    pub closed spec fn grid_matches(&self) -> bool {
        grid_size(self.tiles) == (self.size[0] as nat, self.size[1] as nat)
    }

    /// What every terminal that this library hands out satisfies: there is one
    /// tile for each position, and their number fits the grid's arithmetic.
    pub open spec fn wf(&self) -> bool {
        &&& self.grid_matches()
        &&& self@.len() == self.spec_width() * self.spec_height()
        &&& self.spec_width() <= i32::MAX
        &&& self.spec_height() <= i32::MAX
        &&& self.spec_width() * self.spec_height() <= i32::MAX
    }

    /// Two terminals agree in everything but their tiles.
    pub open spec fn same_frame(&self, other: &Terminal) -> bool {
        &&& self.spec_width() == other.spec_width()
        &&& self.spec_height() == other.spec_height()
        &&& self.spec_border() == other.spec_border()
        &&& self.spec_clear_tile() == other.spec_clear_tile()
    }

    /// The plain position that `xy` stands for on this terminal.
    pub open spec fn resolve<P: GridPoint>(&self, xy: P) -> (int, int) {
        match xy.anchor() {
            Some(pivot) => pivoted(
                pivot,
                xy.px(),
                xy.py(),
                self.spec_width() as int,
                self.spec_height() as int,
            ),
            None => (xy.px(), xy.py()),
        }
    }

    /// The plain position that `xy` stands for has coordinates that are an
    /// `i32` each.
    pub open spec fn can_resolve<P: GridPoint>(&self, xy: P) -> bool {
        &&& i32::MIN <= self.resolve(xy).0 <= i32::MAX
        &&& i32::MIN <= self.resolve(xy).1 <= i32::MAX
    }

    /// `xy` stands for a tile of this terminal.
    pub open spec fn addresses<P: GridPoint>(&self, xy: P) -> bool {
        &&& self.can_resolve(xy)
        &&& 0 <= self.resolve(xy).0 < self.spec_width()
        &&& 0 <= self.resolve(xy).1 < self.spec_height()
    }

    /// The place among the tiles of the position that `xy` stands for.
    pub open spec fn index_of<P: GridPoint>(&self, xy: P) -> int {
        self.resolve(xy).1 * self.spec_width() + self.resolve(xy).0
    }

    /// A position of the terminal has a place among its tiles.
    pub proof fn lemma_index_in_range<P: GridPoint>(&self, xy: P)
        requires
            self.wf(),
            self.addresses(xy),
        ensures
            0 <= self.index_of(xy) < self@.len(),
    {
        lemma_place_in_range(
            self.spec_width() as int,
            self.spec_height() as int,
            self.resolve(xy).0,
            self.resolve(xy).1,
        );
    }

    /// A terminal of the given size with every tile blank, white on black.
    pub fn new(size: [u32; 2]) -> (term: Terminal)
        requires
            1 <= size[0],
            1 <= size[1],
            size[0] * size[1] <= i32::MAX,
        ensures
            term.wf(),
            term.spec_width() == size[0],
            term.spec_height() == size[1],
            term.spec_border() is None,
            term.spec_clear_tile() == Tile::plain(' '),
            term@ == Seq::new((size[0] * size[1]) as nat, |i: int| Tile::plain(' ')),
    {
        let clear_tile = Tile::default();
        assert(size[0] <= i32::MAX && size[1] <= i32::MAX) by (nonlinear_arith)
            requires
                1 <= size[0],
                1 <= size[1],
                size[0] * size[1] <= i32::MAX,
        ;
        Terminal { tiles: grid_filled(clear_tile, size), size, clear_tile, border: None }
    }

    /// A terminal can have this size: both sides are at least one tile long,
    /// and the number of tiles is one that the grid can count.
    pub open spec fn spec_fits(size: [u32; 2]) -> bool {
        &&& 1 <= size[0]
        &&& 1 <= size[1]
        &&& size[0] * size[1] <= i32::MAX
    }

    /// Whether a terminal can have this size.
    pub fn fits(size: [u32; 2]) -> (b: bool)
        ensures
            b == Self::spec_fits(size),
    {
        assert(size[0] * size[1] <= 0xffff_ffff * 0xffff_ffff) by (nonlinear_arith)
            requires
                0 <= size[0] <= 0xffff_ffff,
                0 <= size[1] <= 0xffff_ffff,
        ;
        let tiles: u64 = size[0] as u64 * size[1] as u64;
        size[0] >= 1 && size[1] >= 1 && tiles <= 0x7fff_ffff
    }

    /// The same terminal with a border around it.
    pub fn with_border(self, border: Border) -> (term: Terminal)
        ensures
            term@ == self@,
            term.spec_width() == self.spec_width(),
            term.spec_height() == self.spec_height(),
            term.spec_clear_tile() == self.spec_clear_tile(),
            term.spec_border() == Some(border),
            self.wf() ==> term.wf(),
    {
        let mut term = self;
        term.border = Some(border);
        term
    }

    /// The same terminal with `clear_tile` as its clear tile, and cleared to
    /// it.
    pub fn with_clear_tile(self, clear_tile: Tile) -> (term: Terminal)
        requires
            self.wf(),
        ensures
            term.wf(),
            term.spec_width() == self.spec_width(),
            term.spec_height() == self.spec_height(),
            term.spec_border() == self.spec_border(),
            term.spec_clear_tile() == clear_tile,
            term@ == Seq::new(self@.len(), |i: int| clear_tile),
    {
        let mut term = self;
        term.clear_tile = clear_tile;
        term.clear();
        term
    }

    pub fn set_border(&mut self, border: Border)
        ensures
            final(self)@ == old(self)@,
            final(self).spec_width() == old(self).spec_width(),
            final(self).spec_height() == old(self).spec_height(),
            final(self).spec_clear_tile() == old(self).spec_clear_tile(),
            final(self).spec_border() == Some(border),
            old(self).wf() ==> final(self).wf(),
    {
        self.border = Some(border);
    }

    pub fn remove_border(&mut self)
        ensures
            final(self)@ == old(self)@,
            final(self).spec_width() == old(self).spec_width(),
            final(self).spec_height() == old(self).spec_height(),
            final(self).spec_clear_tile() == old(self).spec_clear_tile(),
            final(self).spec_border() is None,
            old(self).wf() ==> final(self).wf(),
    {
        self.border = None;
    }

    pub fn border(&self) -> (b: Option<&Border>)
        ensures
            b is Some == self.spec_border() is Some,
            b is Some ==> *b->0 == self.spec_border()->0,
    {
        self.border.as_ref()
    }

    /// The border, for writing. What the caller leaves in it is the border
    /// afterwards.
    pub fn border_mut(&mut self) -> (b: Option<&mut Border>)
        ensures
            b is Some == old(self).spec_border() is Some,
            b is Some ==> *b->0 == old(self).spec_border()->0 && final(self).spec_border() == Some(
                *final(b->0),
            ),
            b is None ==> final(self).spec_border() is None,
            final(self)@ == old(self)@,
            final(self).spec_width() == old(self).spec_width(),
            final(self).spec_height() == old(self).spec_height(),
            final(self).spec_clear_tile() == old(self).spec_clear_tile(),
            old(self).wf() ==> final(self).wf(),
    {
        match &mut self.border {
            Some(border) => Some(border),
            None => None,
        }
    }

    /// Makes the terminal `size` wide and high. Nothing of its content stays:
    /// every tile is the clear tile afterwards.
    pub fn resize(&mut self, size: [u32; 2])
        requires
            1 <= size[0],
            1 <= size[1],
            size[0] * size[1] <= i32::MAX,
        ensures
            final(self).wf(),
            final(self).spec_width() == size[0],
            final(self).spec_height() == size[1],
            final(self).spec_border() == old(self).spec_border(),
            final(self).spec_clear_tile() == old(self).spec_clear_tile(),
            final(self)@ == Seq::new(
                (size[0] * size[1]) as nat,
                |i: int| old(self).spec_clear_tile(),
            ),
    {
        assert(size[0] <= i32::MAX && size[1] <= i32::MAX) by (nonlinear_arith)
            requires
                1 <= size[0],
                1 <= size[1],
                size[0] * size[1] <= i32::MAX,
        ;
        self.tiles = grid_filled(self.clear_tile, size);
        self.size = size;
    }

    /// Resizes the terminal as `resize` does if it can have the size, and
    /// leaves it as it is if not. The result says which.
    pub fn try_resize(&mut self, size: [u32; 2]) -> (done: bool)
        requires
            old(self).wf(),
        ensures
            done == Self::spec_fits(size),
            final(self).wf(),
            final(self).spec_border() == old(self).spec_border(),
            final(self).spec_clear_tile() == old(self).spec_clear_tile(),
            done ==> final(self).spec_width() == size[0] && final(self).spec_height() == size[1]
                && final(self)@ == Seq::new(
                (size[0] * size[1]) as nat,
                |i: int| old(self).spec_clear_tile(),
            ),
            !done ==> final(self)@ == old(self)@ && final(self).same_frame(old(self)),
    {
        if Terminal::fits(size) {
            self.resize(size);
            true
        } else {
            false
        }
    }

    /// The tile that a cleared position gets.
    pub fn clear_tile(&self) -> (t: Tile)
        ensures
            t == self.spec_clear_tile(),
    {
        self.clear_tile
    }

    /// Makes `tile` the tile that a cleared position gets from now on. No
    /// tile of the terminal changes.
    pub fn set_clear_tile(&mut self, tile: Tile)
        ensures
            final(self).spec_clear_tile() == tile,
            final(self)@ == old(self)@,
            final(self).spec_width() == old(self).spec_width(),
            final(self).spec_height() == old(self).spec_height(),
            final(self).spec_border() == old(self).spec_border(),
            old(self).wf() ==> final(self).wf(),
    {
        self.clear_tile = tile;
    }

    /// The width, without the border.
    pub fn width(&self) -> (w: usize)
        ensures
            w == self.spec_width(),
    {
        self.size[0] as usize
    }

    /// The height, without the border.
    pub fn height(&self) -> (h: usize)
        ensures
            h == self.spec_height(),
    {
        self.size[1] as usize
    }

    /// Width and height, without the border.
    pub fn size(&self) -> (s: [u32; 2])
        ensures
            s[0] == self.spec_width(),
            s[1] == self.spec_height(),
    {
        self.size
    }

    /// Whether the terminal has a border.
    pub fn has_border(&self) -> (b: bool)
        ensures
            b == self.spec_border() is Some,
    {
        self.border.is_some()
    }

    /// What a border adds to each side's length: two tiles where there is
    /// one, nothing where there is none.
    pub open spec fn border_growth(&self) -> nat {
        if self.spec_border() is Some {
            2
        } else {
            0
        }
    }

    /// Width and height with the border, which adds two to each.
    pub fn size_with_border(&self) -> (s: [u32; 2])
        requires
            self.wf(),
        ensures
            s[0] == self.spec_width() + self.border_growth(),
            s[1] == self.spec_height() + self.border_growth(),
    {
        let grow: u32 = if self.has_border() { 2 } else { 0 };
        [self.size[0] + grow, self.size[1] + grow]
    }

    pub fn width_with_border(&self) -> (w: usize)
        requires
            self.wf(),
        ensures
            w == self.spec_width() + self.border_growth(),
    {
        if self.has_border() {
            self.width() + 2
        } else {
            self.width()
        }
    }

    pub fn height_with_border(&self) -> (h: usize)
        requires
            self.wf(),
        ensures
            h == self.spec_height() + self.border_growth(),
    {
        if self.has_border() {
            self.height() + 2
        } else {
            self.height()
        }
    }

    /// Whether the plain coordinates of `xy` lie on the terminal. A pivot on
    /// `xy` plays no part in this.
    pub fn in_bounds(&self, xy: impl GridPoint) -> (b: bool)
        requires
            self.wf(),
        ensures
            b == (0 <= xy.px() < self.spec_width() && 0 <= xy.py() < self.spec_height()),
    {
        grid_in_bounds(&self.tiles, [xy.x(), xy.y()])
    }

    /// The plain position that `xy` stands for: `xy` itself where it has no
    /// pivot, else the pivot's cell plus `xy` along the pivot's axes.
    pub fn pivoted_point(&self, xy: impl GridPoint) -> (p: [i32; 2])
        requires
            self.wf(),
            self.can_resolve(xy),
        ensures
            p[0] == self.resolve(xy).0,
            p[1] == self.resolve(xy).1,
    {
        match xy.get_pivot() {
            Some(pivot) => {
                let halves = halves_of(pivot);
                [
                    pivot_coordinate(self.size[0], halves[0], xy.x()),
                    pivot_coordinate(self.size[1], halves[1], xy.y()),
                ]
            },
            None => [xy.x(), xy.y()],
        }
    }

    /// The plain position that `xy` stands for, if its coordinates are an
    /// `i32` each.
    pub fn try_pivoted_point(&self, xy: impl GridPoint) -> (r: Option<[i32; 2]>)
        requires
            self.wf(),
        ensures
            r is Some == self.can_resolve(xy),
            r matches Some(p) ==> p[0] == self.resolve(xy).0 && p[1] == self.resolve(xy).1,
    {
        match xy.get_pivot() {
            Some(pivot) => {
                let halves = halves_of(pivot);
                let x = pivot_coordinate_wide(self.size[0], halves[0], xy.x());
                let y = pivot_coordinate_wide(self.size[1], halves[1], xy.y());
                if -0x8000_0000 <= x && x <= 0x7fff_ffff && -0x8000_0000 <= y && y <= 0x7fff_ffff {
                    Some([x as i32, y as i32])
                } else {
                    None
                }
            },
            None => Some([xy.x(), xy.y()]),
        }
    }

    /// Whether `xy` stands for a tile of the terminal: what the functions
    /// that read or write the tile at a position ask of it.
    pub fn has_tile(&self, xy: impl GridPoint) -> (b: bool)
        requires
            self.wf(),
        ensures
            b == self.addresses(xy),
    {
        match self.try_pivoted_point(xy) {
            Some(p) => grid_in_bounds(&self.tiles, p),
            None => false,
        }
    }

    /// A box of the given size with its bottom left corner at the plain
    /// coordinates of `xy` lies on the terminal.
    pub open spec fn spec_has_box<P: GridPoint>(&self, xy: P, size: [u32; 2]) -> bool {
        &&& 0 <= xy.px()
        &&& 0 <= xy.py()
        &&& xy.px() + size[0] <= self.spec_width()
        &&& xy.py() + size[1] <= self.spec_height()
    }

    /// Whether such a box lies on the terminal: what `clear_box` asks.
    pub fn has_box(&self, xy: impl GridPoint, size: [u32; 2]) -> (b: bool)
        requires
            self.wf(),
        ensures
            b == self.spec_has_box(xy, size),
    {
        let x: i64 = xy.x() as i64;
        let y: i64 = xy.y() as i64;
        0 <= x && 0 <= y && x + size[0] as i64 <= self.size[0] as i64 && y + size[1] as i64
            <= self.size[1] as i64
    }

    /// The place among the tiles of the position that `xy` stands for.
    pub fn transform_lti(&self, xy: impl GridPoint) -> (i: usize)
        requires
            self.wf(),
            self.addresses(xy),
        ensures
            i == self.index_of(xy),
            i < self@.len(),
    {
        proof {
            self.lemma_index_in_range(xy);
        }
        let p = self.pivoted_point(xy);
        grid_transform_lti(&self.tiles, p)
    }

    /// The position of the tile at place `i`.
    pub fn transform_itl(&self, i: usize) -> (xy: [i32; 2])
        requires
            self.wf(),
            1 <= self.spec_width(),
            i <= i32::MAX,
        ensures
            xy[0] == i as int % self.spec_width() as int,
            xy[1] == i as int / self.spec_width() as int,
    {
        grid_transform_itl(&self.tiles, i)
    }

    /// The tile at `xy`.
    pub fn get_tile(&self, xy: impl GridPoint) -> (t: &Tile)
        requires
            self.wf(),
            self.addresses(xy),
        ensures
            *t == self@[self.index_of(xy)],
    {
        let i = self.transform_lti(xy);
        grid_get(&self.tiles, i)
    }

    /// The tile at `xy`, for writing. What the caller leaves in it is the
    /// tile at `xy` afterwards; no other tile changes.
    pub fn get_tile_mut(&mut self, xy: impl GridPoint) -> (t: &mut Tile)
        requires
            old(self).wf(),
            old(self).addresses(xy),
        ensures
            *t == old(self)@[old(self).index_of(xy)],
            final(self)@ == old(self)@.update(old(self).index_of(xy), *final(t)),
            final(self).same_frame(old(self)),
            final(self).wf(),
    {
        let i = self.transform_lti(xy);
        grid_get_mut(&mut self.tiles, i)
    }

    /// The glyph at `xy`.
    pub fn get_char(&self, xy: impl GridPoint) -> (c: char)
        requires
            self.wf(),
            self.addresses(xy),
        ensures
            c == self@[self.index_of(xy)].glyph,
    {
        self.get_tile(xy).glyph
    }

    /// Writes a glyph at `xy`, and with it the colours that `writer` names.
    /// A colour that it does not name stays as it is in the tile.
    pub fn put_char(&mut self, xy: impl GridPoint, writer: impl TileFormatter)
        requires
            old(self).wf(),
            old(self).addresses(xy),
        ensures
            final(self)@ == tiles_after_put_char(
                old(self)@,
                old(self).index_of(xy),
                writer.spec_format(),
            ),
            final(self).same_frame(old(self)),
            final(self).wf(),
    {
        let fmt = writer.format();
        let t = self.get_tile_mut(xy);
        fmt.apply(t);
    }

    /// Sets the foreground or the background colour of the tile at `xy`, and
    /// nothing else.
    pub fn put_color(&mut self, xy: impl GridPoint, color: ColorFormat)
        requires
            old(self).wf(),
            old(self).addresses(xy),
        ensures
            final(self)@ == old(self)@.update(
                old(self).index_of(xy),
                match color {
                    ColorFormat::FgColor(c) => old(self)@[old(self).index_of(xy)].with_colors(
                        Some(c),
                        None,
                    ),
                    ColorFormat::BgColor(c) => old(self)@[old(self).index_of(xy)].with_colors(
                        None,
                        Some(c),
                    ),
                },
            ),
            final(self).same_frame(old(self)),
            final(self).wf(),
    {
        let t = self.get_tile_mut(xy);
        match color {
            ColorFormat::FgColor(c) => {
                t.fg_color = c;
            },
            ColorFormat::BgColor(c) => {
                t.bg_color = c;
            },
        }
    }

    /// Puts `tile` at `xy` in place of the tile that is there.
    pub fn put_tile(&mut self, xy: impl GridPoint, tile: Tile)
        requires
            old(self).wf(),
            old(self).addresses(xy),
        ensures
            final(self)@ == old(self)@.update(old(self).index_of(xy), tile),
            final(self).same_frame(old(self)),
            final(self).wf(),
    {
        let t = self.get_tile_mut(xy);
        *t = tile;
    }

    /// Writes `len` glyphs of the text, from place `from` of it on, to the
    /// tiles from place `at` on, as far as those places exist.
    fn put_run(
        &mut self,
        at: i128,
        text: &Vec<char>,
        from: usize,
        len: usize,
        fg: Option<bevy::color::Color>,
        bg: Option<bevy::color::Color>,
    )
        requires
            old(self).wf(),
            from + len <= text@.len(),
            -0x8000_0000_0000_0000 <= at <= 0x8000_0000_0000_0000,
        ensures
            final(self)@ == write_run(
                old(self)@,
                at as int,
                text@.subrange(from as int, from + len),
                fg,
                bg,
            ),
            final(self).same_frame(old(self)),
            final(self).wf(),
    {
        let total = self.width() * self.height();
        let ghost glyphs = text@.subrange(from as int, from + len);
        let mut j: usize = 0;
        assert(text@.len() == text.len());
        assert(self@ =~= write_run(old(self)@, at as int, glyphs.take(0), fg, bg));
        while j < len
            invariant
                self.wf(),
                self.same_frame(old(self)),
                total == self@.len(),
                j <= len,
                from + len <= text@.len() <= usize::MAX,
                glyphs == text@.subrange(from as int, from + len),
                -0x8000_0000_0000_0000 <= at <= 0x8000_0000_0000_0000,
                self@ == write_run(old(self)@, at as int, glyphs.take(j as int), fg, bg),
            decreases len - j,
        {
            let k: i128 = at + j as i128;
            if 0 <= k && k < total as i128 {
                let fmt = TileFormat { glyph: text[from + j], fg_color: fg, bg_color: bg };
                let t = grid_get_mut(&mut self.tiles, k as usize);
                fmt.apply(t);
            }
            assert(self@ =~= write_run(old(self)@, at as int, glyphs.take(j + 1), fg, bg));
            j = j + 1;
        }
        assert(glyphs.take(len as int) =~= glyphs);
    }

    /// Writes a text at `xy`, in the colours that `writer` names. A colour
    /// that it does not name stays as it is in each tile.
    ///
    /// The text is split into lines. The first line goes to the row of `xy`
    /// plus the share of the further lines that lies above the pivot, each
    /// line after it one row lower; the first line whose row is not on the
    /// terminal ends the writing. Of a line, no more glyphs are written than
    /// the terminal is wide. They begin to the left of `xy` by the share of
    /// the line that lies left of the pivot, and go to consecutive tiles in
    /// the order in which the terminal keeps them, so that a line which
    /// passes the right edge goes on in the row above. A point without a
    /// pivot counts as one at the bottom left.
    pub fn put_string(&mut self, xy: impl GridPoint, writer: impl StringFormatter)
        requires
            old(self).wf(),
            old(self).can_resolve(xy),
        ensures
            final(self)@ == string_written(
                old(self)@,
                old(self).spec_width() as int,
                old(self).spec_height() as int,
                old(self).resolve(xy),
                anchor_halves(xy),
                writer.text(),
                writer.fg_override(),
                writer.bg_override(),
            ),
            final(self).same_frame(old(self)),
            final(self).wf(),
    {
        let halves: [u8; 2] = match xy.get_pivot() {
            Some(pivot) => halves_of(pivot),
            None => [0, 0],
        };
        let origin = self.pivoted_point(xy);
        let fmt = writer.formatted();
        let fg = fmt.fg_color;
        let bg = fmt.bg_color;
        let text = chars_of(fmt.string.as_str());
        let spans = line_spans(&text);
        let count = spans.len();
        if count == 0 {
            return ;
        }
        let width = self.width();
        let height = self.height();
        let rise = share(count - 1, 2 - halves[1]);
        let top: i128 = origin[1] as i128 + rise as i128;
        let ghost lines = text_lines(text@);
        let ghost target = string_written(
            old(self)@,
            old(self).spec_width() as int,
            old(self).spec_height() as int,
            old(self).resolve(xy),
            anchor_halves(xy),
            writer.text(),
            writer.fg_override(),
            writer.bg_override(),
        );
        assert(top == top_row(origin[1] as int, count as int, halves[1] as int));
        let mut i: usize = 0;
        let mut on_grid = true;
        while i < count && on_grid
            invariant
                self.wf(),
                self.same_frame(old(self)),
                width == self.spec_width(),
                height == self.spec_height(),
                i <= count,
                count == spans@.len(),
                halves[0] <= 2,
                i32::MIN <= top <= i32::MAX + usize::MAX,
                lines == text_lines(text@),
                spans_within(spans@, text@.len()),
                cut(text@, spans@) == lines,
                !on_grid ==> i < count && !(0 <= top - i < height),
                write_lines(
                    self@,
                    width as int,
                    height as int,
                    origin[0] as int,
                    top as int,
                    halves[0] as int,
                    lines,
                    i as int,
                    fg,
                    bg,
                ) == target,
            decreases count - i + if on_grid { 1int } else { 0int },
        {
            let y: i128 = top - i as i128;
            if y < 0 || y >= height as i128 {
                on_grid = false;
            } else {
                let (start, end) = spans[i];
                let n = end - start;
                let len = if n <= width { n } else { width };
                assert(lines[i as int] == text@.subrange(start as int, end as int));
                assert(len == line_len(lines[i as int], width as int));
                assert(lines[i as int].take(len as int) =~= text@.subrange(
                    start as int,
                    start + len,
                ));
                let ghost before = self@;
                if len > 0 {
                    let shift = share(len - 1, halves[0]);
                    let x: i128 = origin[0] as i128 - shift as i128;
                    assert(0 <= y * (width as i128) <= 0x4000_0000_0000_0000) by (nonlinear_arith)
                        requires
                            0 <= y < 0x8000_0000,
                            0 <= width < 0x8000_0000,
                    ;
                    let at: i128 = y * (width as i128) + x;
                    assert(x == line_start(origin[0] as int, len as int, halves[0] as int));
                    self.put_run(at, &text, start, len, fg, bg);
                } else {
                    assert(self@ =~= write_run(
                        before,
                        y * width + line_start(origin[0] as int, 0, halves[0] as int),
                        lines[i as int].take(0),
                        fg,
                        bg,
                    ));
                }
                i = i + 1;
            }
        }
    }

    /// Sets the tiles from `xy` on to the clear tile: `len` of them in the
    /// order in which the terminal keeps them, or all that follow if they are
    /// fewer.
    pub fn clear_string(&mut self, xy: impl GridPoint, len: usize)
        requires
            old(self).wf(),
            old(self).addresses(xy),
        ensures
            final(self)@ == Seq::new(
                old(self)@.len(),
                |k: int|
                    if old(self).index_of(xy) <= k < old(self).index_of(xy) + len {
                        old(self).spec_clear_tile()
                    } else {
                        old(self)@[k]
                    },
            ),
            final(self).same_frame(old(self)),
            final(self).wf(),
    {
        let tile = self.clear_tile;
        let first = self.transform_lti(xy);
        let total = self.width() * self.height();
        let end = if len <= total - first { first + len } else { total };
        let mut i: usize = first;
        while i < end
            invariant
                self.wf(),
                self.same_frame(old(self)),
                total == self@.len(),
                self@.len() == old(self)@.len(),
                tile == old(self).spec_clear_tile(),
                first <= i <= end <= total,
                forall|k: int| first <= k < i ==> self@[k] == tile,
                forall|k: int| 0 <= k < first || i <= k < total ==> self@[k] == old(self)@[k],
            decreases end - i,
        {
            let t = grid_get_mut(&mut self.tiles, i);
            *t = tile;
            i = i + 1;
        }
        assert(self@ =~= Seq::new(
            old(self)@.len(),
            |k: int|
                if old(self).index_of(xy) <= k < old(self).index_of(xy) + len {
                    old(self).spec_clear_tile()
                } else {
                    old(self)@[k]
                },
        ));
    }

    /// The glyphs of the tiles from `xy` on: `len` of them in the order in
    /// which the terminal keeps them, or all that follow if they are fewer.
    pub fn get_string(&self, xy: impl GridPoint, len: usize) -> (s: String)
        requires
            self.wf(),
            self.addresses(xy),
        ensures
            s@ == Seq::new(
                if len <= self@.len() - self.index_of(xy) {
                    len as nat
                } else {
                    (self@.len() - self.index_of(xy)) as nat
                },
                |k: int| self@[self.index_of(xy) + k].glyph,
            ),
    {
        let first = self.transform_lti(xy);
        let total = self.width() * self.height();
        let end = if len <= total - first { first + len } else { total };
        let mut chars: Vec<char> = Vec::new();
        let mut i: usize = first;
        while i < end
            invariant
                self.wf(),
                total == self@.len(),
                first <= i <= end <= total,
                chars@.len() == i - first,
                forall|k: int| 0 <= k < i - first ==> chars@[k] == self@[first + k].glyph,
            decreases end - i,
        {
            chars.push(grid_get(&self.tiles, i).glyph);
            i = i + 1;
        }
        assert(chars@ =~= Seq::new(
            (end - first) as nat,
            |k: int| self@[self.index_of(xy) + k].glyph,
        ));
        string_of(&chars)
    }

    /// The tile at column `x` of row `y`.
    pub open spec fn tile_at(&self, x: int, y: int) -> Tile {
        self@[y * self.spec_width() + x]
    }

    /// Sets the tiles of a box to the clear tile. The box has its bottom left
    /// corner at the plain coordinates of `xy` and must lie on the terminal.
    pub fn clear_box(&mut self, xy: impl GridPoint, size: [u32; 2])
        requires
            old(self).wf(),
            old(self).spec_has_box(xy, size),
        ensures
            final(self)@.len() == old(self)@.len(),
            forall|x: int, y: int|
                0 <= x < old(self).spec_width() && 0 <= y < old(self).spec_height()
                    ==> #[trigger] final(self).tile_at(x, y) == if xy.px() <= x < xy.px() + size[0]
                    && xy.py() <= y < xy.py() + size[1] {
                    old(self).spec_clear_tile()
                } else {
                    old(self).tile_at(x, y)
                },
            final(self).same_frame(old(self)),
            final(self).wf(),
    {
        let tile = self.clear_tile;
        let x0 = xy.x();
        let y0 = xy.y();
        let x1: i32 = x0 + size[0] as i32;
        let y1: i32 = y0 + size[1] as i32;
        let mut y: i32 = y0;
        while y < y1
            invariant
                self.wf(),
                self.same_frame(old(self)),
                self@.len() == old(self)@.len(),
                tile == old(self).spec_clear_tile(),
                0 <= x0 <= x1 <= self.spec_width(),
                0 <= y0 <= y <= y1 <= self.spec_height(),
                x0 == xy.px(),
                y0 == xy.py(),
                x1 == xy.px() + size[0],
                y1 == xy.py() + size[1],
                forall|a: int, b: int|
                    0 <= a < self.spec_width() && 0 <= b < self.spec_height()
                        ==> #[trigger] self.tile_at(a, b) == if x0 <= a < x1 && y0 <= b < y {
                        tile
                    } else {
                        old(self).tile_at(a, b)
                    },
            decreases y1 - y,
        {
            let mut x: i32 = x0;
            while x < x1
                invariant
                    self.wf(),
                    self.same_frame(old(self)),
                    self@.len() == old(self)@.len(),
                    tile == old(self).spec_clear_tile(),
                    0 <= x0 <= x <= x1 <= self.spec_width(),
                    0 <= y0 <= y < y1 <= self.spec_height(),
                    forall|a: int, b: int|
                        0 <= a < self.spec_width() && 0 <= b < self.spec_height()
                            ==> #[trigger] self.tile_at(a, b) == if x0 <= a < x1 && y0 <= b < y
                            || x0 <= a < x && b == y {
                            tile
                        } else {
                            old(self).tile_at(a, b)
                        },
                decreases x1 - x,
            {
                let ghost before = *self;
                let pos: [i32; 2] = [x, y];
                self.put_tile(pos, tile);
                assert forall|a: int, b: int|
                    0 <= a < self.spec_width() && 0 <= b < self.spec_height() implies #[trigger] self.tile_at(
                    a,
                    b,
                ) == if x0 <= a < x1 && y0 <= b < y || x0 <= a < x + 1 && b == y {
                    tile
                } else {
                    old(self).tile_at(a, b)
                } by {
                    let w = self.spec_width() as int;
                    let h = self.spec_height() as int;
                    if b * w + a == y * w + x {
                        lemma_place_is_one_to_one(w, a, b, x as int, y as int);
                    }
                    lemma_place_in_range(w, h, a, b);
                    lemma_place_in_range(w, h, x as int, y as int);
                    assert(self.tile_at(a, b) == if a == x && b == y {
                        tile
                    } else {
                        before.tile_at(a, b)
                    });
                }
                x = x + 1;
            }
            y = y + 1;
        }
    }

    /// Sets the tiles of row `line` to the clear tile.
    pub fn clear_line(&mut self, line: usize)
        requires
            old(self).wf(),
            line < old(self).spec_height(),
        ensures
            final(self)@ == Seq::new(
                old(self)@.len(),
                |k: int|
                    if line * old(self).spec_width() <= k < (line + 1) * old(self).spec_width() {
                        old(self).spec_clear_tile()
                    } else {
                        old(self)@[k]
                    },
            ),
            final(self).same_frame(old(self)),
            final(self).wf(),
    {
        let tile = self.clear_tile;
        let width = self.width();
        assert((line + 1) * width <= self.spec_height() * width) by (nonlinear_arith)
            requires
                line + 1 <= self.spec_height(),
                0 <= width,
        ;
        assert(self.spec_height() * width == width * self.spec_height()) by (nonlinear_arith);
        assert(line * width + width == (line + 1) * width) by (nonlinear_arith);
        assert(0 <= line * width) by (nonlinear_arith)
            requires
                0 <= line,
                0 <= width,
        ;
        let first = line * width;
        let end = first + width;
        let mut i: usize = first;
        while i < end
            invariant
                self.wf(),
                self.same_frame(old(self)),
                self@.len() == old(self)@.len(),
                tile == old(self).spec_clear_tile(),
                first <= i <= end <= self@.len(),
                forall|k: int| first <= k < i ==> self@[k] == tile,
                forall|k: int| 0 <= k < first || i <= k < self@.len() ==> self@[k] == old(self)@[k],
            decreases end - i,
        {
            let t = grid_get_mut(&mut self.tiles, i);
            *t = tile;
            i = i + 1;
        }
        assert(self@ =~= Seq::new(
            old(self)@.len(),
            |k: int|
                if line * old(self).spec_width() <= k < (line + 1) * old(self).spec_width() {
                    old(self).spec_clear_tile()
                } else {
                    old(self)@[k]
                },
        ));
    }

    /// All tiles, row by row from the bottom, each row from the left.
    pub fn iter(&self) -> (tiles: Vec<Tile>)
        ensures
            tiles@ == self@,
    {
        grid_tiles(&self.tiles)
    }

    /// The tiles of row `y` from left to right.
    pub fn iter_row(&self, y: usize) -> (row: Vec<Tile>)
        requires
            self.wf(),
            y < self.spec_height(),
        ensures
            row@ == self@.subrange(y * self.spec_width(), (y + 1) * self.spec_width()),
    {
        assert((y + 1) * self.spec_width() <= self.spec_height() * self.spec_width())
            by (nonlinear_arith)
            requires
                y + 1 <= self.spec_height(),
        ;
        assert(self.spec_height() * self.spec_width() == self.spec_width() * self.spec_height())
            by (nonlinear_arith);
        grid_row(&self.tiles, y)
    }

    /// All tiles for writing, row by row from the bottom. What the caller
    /// leaves in the slice are the terminal's tiles afterwards.
    pub fn iter_mut(&mut self) -> (s: &mut [Tile])
        ensures
            s@ == old(self)@,
            final(self)@ == final(s)@,
            final(self).same_frame(old(self)),
            old(self).wf() ==> final(self).wf(),
    {
        grid_slice_mut(&mut self.tiles)
    }

    /// The tiles of row `y` for writing, from left to right. What the caller
    /// leaves in the slice is row `y` afterwards; the other rows stay.
    pub fn iter_row_mut(&mut self, y: usize) -> (row: &mut [Tile])
        requires
            old(self).wf(),
            y < old(self).spec_height(),
            1 <= old(self).spec_width(),
        ensures
            row@ == old(self)@.subrange(
                y * old(self).spec_width(),
                (y + 1) * old(self).spec_width(),
            ),
            final(row)@.len() == row@.len(),
            final(self)@ == old(self)@.subrange(0, y * old(self).spec_width()) + final(row)@
                + old(self)@.subrange((y + 1) * old(self).spec_width(), old(self)@.len() as int),
            final(self).same_frame(old(self)),
            final(self).wf(),
    {
        proof {
            lemma_place_in_range(
                self.spec_width() as int,
                self.spec_height() as int,
                self.spec_width() - 1,
                y as int,
            );
            assert((y + 1) * self.spec_width() == y * self.spec_width() + self.spec_width())
                by (nonlinear_arith);
            assert(0 <= y * self.spec_width()) by (nonlinear_arith)
                requires
                    0 <= y,
                    0 <= self.spec_width(),
            ;
        }
        grid_row_mut(&mut self.tiles, y)
    }

    /// The rows from `start` up to, and without, `end`, from the bottom up,
    /// each from left to right.
    pub fn iter_rows(&self, start: usize, end: usize) -> (rows: Vec<Vec<Tile>>)
        requires
            self.wf(),
            start < end <= self.spec_height(),
            1 <= self.spec_width(),
        ensures
            rows@.len() == end - start,
            forall|k: int|
                0 <= k < end - start ==> (#[trigger] rows@[k])@ == self@.subrange(
                    (start + k) * self.spec_width(),
                    (start + k + 1) * self.spec_width(),
                ),
    {
        assert(end * self.spec_width() <= self.spec_height() * self.spec_width())
            by (nonlinear_arith)
            requires
                end <= self.spec_height(),
        ;
        assert(self.spec_height() * self.spec_width() == self.spec_width() * self.spec_height())
            by (nonlinear_arith);
        grid_rows(&self.tiles, start, end)
    }

    /// The tiles of column `x` from the bottom to the top.
    pub fn iter_column(&self, x: usize) -> (column: Vec<Tile>)
        requires
            self.wf(),
            x < self.spec_width(),
            1 <= self.spec_height(),
        ensures
            column@ == Seq::new(self.spec_height(), |j: int| self.tile_at(x as int, j)),
    {
        let column = grid_column(&self.tiles, x);
        assert(column@ =~= Seq::new(self.spec_height(), |j: int| self.tile_at(x as int, j)));
        column
    }

    /// The last column for the right side, the last row for the top, and
    /// zero for the left side and the bottom.
    pub fn side_index(&self, side: Side) -> (i: usize)
        requires
            self.wf(),
            1 <= self.spec_width(),
            1 <= self.spec_height(),
        ensures
            i == match side {
                Side::Left => 0,
                Side::Top => self.spec_height() - 1,
                Side::Right => self.spec_width() - 1,
                Side::Bottom => 0,
            },
    {
        grid_side_index(&self.tiles, side)
    }

    /// How far the middle tile of a side of `n` tiles lies from its first.
    pub open spec fn half_below(n: nat) -> int {
        if n == 0 {
            0
        } else {
            (n - 1) / 2
        }
    }

    /// Takes a position that counts from the bottom left corner to the one
    /// that counts from the middle tile. A pivot on `pos` plays no part.
    pub fn transform_ltw(&self, pos: impl GridPoint) -> (p: [i32; 2])
        requires
            self.wf(),
            i32::MIN <= pos.px() - Self::half_below(self.spec_width()),
            i32::MIN <= pos.py() - Self::half_below(self.spec_height()),
        ensures
            p[0] == pos.px() - Self::half_below(self.spec_width()),
            p[1] == pos.py() - Self::half_below(self.spec_height()),
    {
        let w: i32 = self.size[0] as i32;
        let h: i32 = self.size[1] as i32;
        [pos.x() - (w - 1) / 2, pos.y() - (h - 1) / 2]
    }

    /// Takes a position that counts from the middle of the terminal to the
    /// one that counts from the bottom left corner. A pivot on `pos` plays no
    /// part.
    pub fn transform_wtl(&self, pos: impl GridPoint) -> (p: [i32; 2])
        requires
            self.wf(),
            pos.px() + self.spec_width() / 2 <= i32::MAX,
            pos.py() + self.spec_height() / 2 <= i32::MAX,
        ensures
            p[0] == pos.px() + self.spec_width() / 2,
            p[1] == pos.py() + self.spec_height() / 2,
    {
        let w: i32 = self.size[0] as i32;
        let h: i32 = self.size[1] as i32;
        [pos.x() + w / 2, pos.y() + h / 2]
    }

    /// The tiles as a slice, row by row from the bottom.
    pub fn slice(&self) -> (s: &[Tile])
        ensures
            s@ == self@,
    {
        grid_slice(&self.tiles)
    }

    /// The tiles as a slice for writing. What the caller leaves in the slice
    /// are the terminal's tiles afterwards.
    pub fn slice_mut(&mut self) -> (s: &mut [Tile])
        ensures
            s@ == old(self)@,
            final(self)@ == final(s)@,
            final(self).same_frame(old(self)),
            old(self).wf() ==> final(self).wf(),
    {
        grid_slice_mut(&mut self.tiles)
    }

    /// The rectangle that the tiles take when the middle of the terminal is
    /// the origin.
    pub fn bounds(&self) -> (b: GridBounds)
        ensures
            b.center@ == seq![0i32, 0i32],
            b.size@ == seq![self.spec_width() as u32, self.spec_height() as u32],
    {
        let b = GridBounds { center: [0, 0], size: self.size };
        assert(b.center@ =~= seq![0i32, 0i32]);
        assert(b.size@ =~= seq![self.spec_width() as u32, self.spec_height() as u32]);
        b
    }

    /// The rectangle that the tiles and the border take when the middle of
    /// the terminal is the origin.
    pub fn bounds_with_border(&self) -> (b: GridBounds)
        requires
            self.wf(),
        ensures
            b.center@ == seq![0i32, 0i32],
            b.size@ == seq![
                (self.spec_width() + self.border_growth()) as u32,
                (self.spec_height() + self.border_growth()) as u32,
            ],
    {
        let b = GridBounds { center: [0, 0], size: self.size_with_border() };
        assert(b.center@ =~= seq![0i32, 0i32]);
        assert(b.size@ =~= seq![
            (self.spec_width() + self.border_growth()) as u32,
            (self.spec_height() + self.border_growth()) as u32,
        ]);
        b
    }

    /// Sets every tile to the clear tile.
    pub fn clear(&mut self)
        requires
            old(self).wf(),
        ensures
            final(self)@ == Seq::new(old(self)@.len(), |i: int| old(self).spec_clear_tile()),
            final(self).same_frame(old(self)),
            final(self).wf(),
    {
        let tile = self.clear_tile;
        let n = self.width() * self.height();
        let mut i: usize = 0;
        while i < n
            invariant
                self.wf(),
                self.same_frame(old(self)),
                n == self@.len(),
                self@.len() == old(self)@.len(),
                tile == old(self).spec_clear_tile(),
                i <= n,
                forall|k: int| 0 <= k < i ==> self@[k] == tile,
            decreases n - i,
        {
            let t = grid_get_mut(&mut self.tiles, i);
            *t = tile;
            i = i + 1;
        }
        assert(self@ =~= Seq::new(old(self)@.len(), |i: int| old(self).spec_clear_tile()));
    }
}

/// The tiles after `format` was written at place `at`: the tile there has
/// the glyph, and each colour that `format` names; every other tile is as
/// before.
pub open spec fn tiles_after_put_char(tiles: Seq<Tile>, at: int, format: TileFormat) -> Seq<Tile> {
    tiles.update(at, format.applied(tiles[at]))
}

/// A glyph that was written at a place is the glyph that is read there.
pub proof fn lemma_put_char_then_get_char(tiles: Seq<Tile>, at: int, format: TileFormat)
    requires
        0 <= at < tiles.len(),
    ensures
        tiles_after_put_char(tiles, at, format)[at].glyph == format.glyph,
{
}

/// Writing a glyph at a place changes no tile at another place, and not the
/// number of tiles.
pub proof fn lemma_put_char_elsewhere(tiles: Seq<Tile>, at: int, format: TileFormat, other: int)
    requires
        0 <= at < tiles.len(),
        0 <= other < tiles.len(),
        other != at,
    ensures
        tiles_after_put_char(tiles, at, format).len() == tiles.len(),
        tiles_after_put_char(tiles, at, format)[other] == tiles[other],
{
}

/// A glyph that is written without colours over a tile that was written with
/// both takes the tile's place and leaves both colours as they were.
pub proof fn lemma_put_char_keeps_colors(
    tiles: Seq<Tile>,
    at: int,
    first: char,
    fg: bevy::color::Color,
    bg: bevy::color::Color,
    second: char,
)
    requires
        0 <= at < tiles.len(),
    ensures
        tiles_after_put_char(
            tiles_after_put_char(
                tiles,
                at,
                TileFormat { glyph: first, fg_color: Some(fg), bg_color: Some(bg) },
            ),
            at,
            TileFormat { glyph: second, fg_color: None, bg_color: None },
        )[at] == (Tile { glyph: second, fg_color: fg, bg_color: bg }),
{
}

/// A position of a grid has a place among its tiles.
pub proof fn lemma_place_in_range(width: int, height: int, x: int, y: int)
    requires
        0 <= x < width,
        0 <= y < height,
    ensures
        0 <= y * width + x < width * height,
{
    assert(0 <= y * width) by (nonlinear_arith)
        requires
            0 <= y,
            0 <= width,
    ;
    assert((y + 1) * width <= height * width) by (nonlinear_arith)
        requires
            y + 1 <= height,
            0 <= width,
    ;
    assert((y + 1) * width == y * width + width) by (nonlinear_arith);
    assert(height * width == width * height) by (nonlinear_arith);
}

/// Two positions of a grid that have the same place in its row-major order
/// are the same position.
pub proof fn lemma_place_is_one_to_one(width: int, x1: int, y1: int, x2: int, y2: int)
    requires
        0 <= x1 < width,
        0 <= x2 < width,
        y1 * width + x1 == y2 * width + x2,
    ensures
        x1 == x2,
        y1 == y2,
{
    if y1 < y2 {
        assert(y2 * width >= (y1 + 1) * width) by (nonlinear_arith)
            requires
                y1 + 1 <= y2,
                0 < width,
        ;
        assert((y1 + 1) * width == y1 * width + width) by (nonlinear_arith);
    } else if y2 < y1 {
        assert(y1 * width >= (y2 + 1) * width) by (nonlinear_arith)
            requires
                y2 + 1 <= y1,
                0 < width,
        ;
        assert((y2 + 1) * width == y2 * width + width) by (nonlinear_arith);
    }
}

impl Clone for Terminal {
    fn clone(&self) -> (term: Terminal)
        ensures
            term@ == self@,
            term.same_frame(self),
            self.wf() ==> term.wf(),
    {
        Terminal {
            tiles: grid_clone(&self.tiles),
            size: self.size,
            clear_tile: self.clear_tile,
            border: self.border,
        }
    }
}

impl Default for Terminal {
    /// A terminal without tiles, of width and height zero.
    fn default() -> (term: Terminal)
        ensures
            term.wf(),
            term.spec_width() == 0,
            term.spec_height() == 0,
            term.spec_border() is None,
            term.spec_clear_tile() == Tile::plain(' '),
            term@ == Seq::<Tile>::empty(),
    {
        let term = Terminal {
            tiles: grid_empty(),
            size: [0, 0],
            clear_tile: Tile::default(),
            border: None,
        };
        assert(term.spec_width() == 0 && term.spec_height() == 0);
        assert(term@.len() == 0);
        term
    }
}

} // verus!
