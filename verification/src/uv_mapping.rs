//! Which part of a tile sheet shows which glyph.
//!
//! A tile sheet is a grid of equal cells, counted from the cell at the
//! origin of the sheet's coordinates, row by row. A mapping is made from the
//! glyphs in the order of their cells. It answers with the four corners of a
//! glyph's cell, in the unit of one cell: a corner `[x, y]` of a sheet of
//! `[cols, rows]` cells lies at `x / cols` of the sheet's width and `y / rows`
//! of its height.

use vstd::prelude::*;

use crate::code_page_437::{
    cp_437_chars, cp_437_glyph, cp_437_glyphs, index_to_glyph, lemma_cp_437_distinct,
};

verus! {

/// The table from glyphs to cells: the host's hash map, out of Verus's sight.
#[derive(Debug)]
#[verifier::external_body]
pub struct GlyphTable {
    map: bevy::utils::HashMap<char, (u32, u32)>,
}

/// The cell that a table holds for each glyph it knows.
pub uninterp spec fn table_entries(t: GlyphTable) -> Map<char, (u32, u32)>;

/// The entries of a table that holds nothing.
pub open spec fn empty_table() -> Map<char, (u32, u32)> {
    Map::empty()
}

/// `HashMap::default`: a table without entries.
#[verifier::external_body]
fn table_new() -> (t: GlyphTable)
    ensures
        table_entries(t) == empty_table(),
{
    GlyphTable { map: bevy::utils::HashMap::default() }
}

/// `HashMap::insert`: afterwards the table holds `cell` for `glyph`, in place
/// of what it held for it before, and everything else as before.
#[verifier::external_body]
fn table_insert(t: &mut GlyphTable, glyph: char, cell: (u32, u32))
    ensures
        table_entries(*final(t)) == table_entries(*old(t)).insert(glyph, cell),
{
    t.map.insert(glyph, cell);
}

/// `HashMap::get`: the cell that the table holds for `glyph`, if it holds
/// one.
#[verifier::external_body]
fn table_get(t: &GlyphTable, glyph: char) -> (cell: Option<(u32, u32)>)
    ensures
        cell is Some == table_entries(*t).contains_key(glyph),
        cell is Some ==> cell->0 == table_entries(*t)[glyph],
{
    t.map.get(&glyph).copied()
}

/// The hash map's `Clone`: a table with the same entries.
#[verifier::external_body]
fn table_clone(t: &GlyphTable) -> (copy: GlyphTable)
    ensures
        table_entries(copy) == table_entries(*t),
{
    GlyphTable { map: t.map.clone() }
}

/// The corners of a cell of a tile sheet, in the unit of one cell, and the
/// number of cells along each side of the sheet.
#[derive(Clone, Copy, Debug, PartialEq, Eq)]
pub struct GridUvs {
    /// The cell's origin, the corner above it, the corner to its right, and
    /// the corner opposite to it.
    pub corners: [[u32; 2]; 4],
    /// The number of columns and of rows of the sheet.
    pub tile_count: [u32; 2],
}

/// A glyph that a mapping has no cell for.
#[derive(Clone, Copy, Debug, PartialEq, Eq)]
pub struct MissingGlyphError {
    pub glyph: char,
}

/// The corners of the cell at column `x` and row `y`: its origin, then one up,
/// one to the right, and both.
pub open spec fn cell_corners(x: int, y: int) -> Seq<Seq<int>> {
    seq![seq![x, y], seq![x, y + 1], seq![x + 1, y], seq![x + 1, y + 1]]
}

/// The cell of the glyph at place `i` of a sheet with `cols` columns.
pub open spec fn cell_of(i: int, cols: int) -> (u32, u32) {
    ((i % cols) as u32, (i / cols) as u32)
}

/// The table that holds, for each glyph of the sequence, the cell of its
/// place. Of a glyph that occurs more than once the last place counts.
pub open spec fn grid_cells(glyphs: Seq<char>, cols: int) -> Map<char, (u32, u32)>
    decreases glyphs.len(),
{
    if glyphs.len() == 0 {
        Map::empty()
    } else {
        grid_cells(glyphs.drop_last(), cols).insert(
            glyphs.last(),
            cell_of(glyphs.len() - 1, cols),
        )
    }
}

impl GridUvs {
    /// The four corners as coordinates in the unit of one cell.
    pub open spec fn spec_corners(self) -> Seq<Seq<int>> {
        Seq::new(4, |k: int| seq![self.corners[k][0] as int, self.corners[k][1] as int])
    }
}

/// A mapping from glyphs to the cells of a tile sheet.
#[derive(Debug)]
pub struct UvMapping {
    uv_map: GlyphTable,
    tile_count: [u32; 2],
}

impl UvMapping {
    /// The cell of each glyph that the mapping knows.
    pub closed spec fn view(&self) -> Map<char, (u32, u32)> {
        table_entries(self.uv_map)
    }

    /// The number of columns and of rows of the sheet.
    pub closed spec fn spec_tile_count(&self) -> (u32, u32) {
        (self.tile_count[0], self.tile_count[1])
    }

    /// Every cell has a corner opposite to its origin that can be written
    /// down.
    pub open spec fn wf(&self) -> bool {
        forall|glyph: char| #[trigger]
            self@.contains_key(glyph) ==> self@[glyph].0 < u32::MAX && self@[glyph].1 < u32::MAX
    }

    /// The mapping of code page 437 on a sheet of 16 by 16 cells.
    pub fn code_page_437() -> (m: UvMapping)
        ensures
            m.wf(),
            m.spec_tile_count() == (16u32, 16u32),
            m@ == grid_cells(cp_437_glyphs(), 16),
    {
        let glyphs = cp_437_chars();
        UvMapping::from_grid([16, 16], glyphs.as_slice())
    }

    /// The mapping of a sheet with `tile_count[0]` columns on which the
    /// glyphs lie in the order of `glyphs`, row by row.
    pub fn from_grid(tile_count: [u32; 2], glyphs: &[char]) -> (m: UvMapping)
        requires
            1 <= tile_count[0],
            glyphs@.len() <= u32::MAX,
        ensures
            m.wf(),
            m.spec_tile_count() == (tile_count[0], tile_count[1]),
            m@ == grid_cells(glyphs@, tile_count[0] as int),
    {
        let mut uv_map = table_new();
        let cols = tile_count[0];
        let n = glyphs.len();
        let mut i: usize = 0;
        assert(glyphs@.take(0) =~= Seq::<char>::empty());
        while i < n
            invariant
                i <= n,
                n == glyphs@.len(),
                n <= u32::MAX,
                cols == tile_count[0],
                1 <= cols,
                table_entries(uv_map) == grid_cells(glyphs@.take(i as int), cols as int),
                forall|glyph: char| #[trigger]
                    table_entries(uv_map).contains_key(glyph) ==> table_entries(uv_map)[glyph].0
                        < u32::MAX && table_entries(uv_map)[glyph].1 < u32::MAX,
            decreases n - i,
        {
            let x = i as u32 % cols;
            let y = i as u32 / cols;
            assert(glyphs@.take(i + 1).drop_last() =~= glyphs@.take(i as int));
            assert(glyphs@.take(i + 1).last() == glyphs@[i as int]);
            assert(y <= i) by (nonlinear_arith)
                requires
                    y == i as int / cols as int,
                    1 <= cols,
                    0 <= i,
            ;
            table_insert(&mut uv_map, glyphs[i], (x, y));
            i = i + 1;
        }
        assert(glyphs@.take(n as int) =~= glyphs@);
        UvMapping { uv_map, tile_count }
    }

    /// The corners of the cell at column `xy[0]` and row `xy[1]`: its origin,
    /// then the corner one up, the corner one to the right, and the corner
    /// that is both.
    pub fn get_grid_uvs(xy: [u32; 2], tile_count: [u32; 2]) -> (uvs: GridUvs)
        requires
            xy[0] < u32::MAX,
            xy[1] < u32::MAX,
        ensures
            uvs.spec_corners() == cell_corners(xy[0] as int, xy[1] as int),
            uvs.tile_count == tile_count,
    {
        let x = xy[0];
        let y = xy[1];
        let uvs = GridUvs {
            corners: [[x, y], [x, y + 1], [x + 1, y], [x + 1, y + 1]],
            tile_count,
        };
        assert(uvs.spec_corners() =~~= cell_corners(xy[0] as int, xy[1] as int));
        uvs
    }

    /// The corners of the cell of `ch`. A glyph that the mapping was not made
    /// with has none: that is an error, and no other glyph stands in for it.
    pub fn uvs_from_glyph(&self, ch: char) -> (r: Result<GridUvs, MissingGlyphError>)
        requires
            self.wf(),
        ensures
            self@.contains_key(ch) ==> r is Ok && r->Ok_0.spec_corners() == cell_corners(
                self@[ch].0 as int,
                self@[ch].1 as int,
            ) && (r->Ok_0.tile_count[0], r->Ok_0.tile_count[1]) == self.spec_tile_count(),
            !self@.contains_key(ch) ==> r == Err::<GridUvs, MissingGlyphError>(
                MissingGlyphError { glyph: ch },
            ),
    {
        match table_get(&self.uv_map, ch) {
            Some(cell) => {
                assert(self@.contains_key(ch));
                let xy: [u32; 2] = [cell.0, cell.1];
                Ok(UvMapping::get_grid_uvs(xy, self.tile_count))
            },
            None => Err(MissingGlyphError { glyph: ch }),
        }
    }

    /// The corners of the cell of the glyph that code page 437 has at
    /// `index`.
    pub fn uvs_from_index(&self, index: u8) -> (r: Result<GridUvs, MissingGlyphError>)
        requires
            self.wf(),
        ensures
            self@.contains_key(cp_437_glyph(index as int)) ==> r is Ok
                && r->Ok_0.spec_corners() == cell_corners(
                self@[cp_437_glyph(index as int)].0 as int,
                self@[cp_437_glyph(index as int)].1 as int,
            ) && (r->Ok_0.tile_count[0], r->Ok_0.tile_count[1]) == self.spec_tile_count(),
            !self@.contains_key(cp_437_glyph(index as int)) ==> r == Err::<
                GridUvs,
                MissingGlyphError,
            >(MissingGlyphError { glyph: cp_437_glyph(index as int) }),
    {
        let ch = index_to_glyph(index);
        self.uvs_from_glyph(ch)
    }
}

impl Clone for UvMapping {
    fn clone(&self) -> (m: UvMapping)
        ensures
            m@ == self@,
            m.spec_tile_count() == self.spec_tile_count(),
    {
        UvMapping { uv_map: table_clone(&self.uv_map), tile_count: self.tile_count }
    }
}

impl Default for UvMapping {
    /// The mapping of code page 437.
    fn default() -> (m: UvMapping)
        ensures
            m.wf(),
            m.spec_tile_count() == (16u32, 16u32),
            m@ == grid_cells(cp_437_glyphs(), 16),
    {
        UvMapping::code_page_437()
    }
}

/// The name that a host knows a mapping by: a number that the host counts
/// up, or one that the mapping was given for good.
#[derive(Clone, Copy, Debug, PartialEq, Eq, Structural)]
pub enum MappingId {
    Index(u64),
    Uuid(u128),
}

/// Gives a host the mapping that its terminals use until they are given
/// another, and tells it which terminals to draw anew when mappings change.
#[derive(Clone, Copy, Debug, Default, PartialEq, Eq)]
pub struct UvMappingPlugin;

impl UvMappingPlugin {
    /// The mapping that terminals begin with: that of code page 437.
    pub fn initial_mapping(&self) -> (m: UvMapping)
        ensures
            m.wf(),
            m.spec_tile_count() == (16u32, 16u32),
            m@ == grid_cells(cp_437_glyphs(), 16),
    {
        UvMapping::code_page_437()
    }

    /// Which terminals are to be drawn anew after something happened to the
    /// mappings in `changed`, be it that they were added, loaded, modified or
    /// removed: of the terminals, each given by the mapping it uses, those
    /// that use one of them.
    pub fn uv_mapping_loaded(&self, changed: &[MappingId], used: &[MappingId]) -> (stale: Vec<bool>)
        ensures
            stale@.len() == used@.len(),
            forall|i: int| 0 <= i < used@.len() ==> #[trigger] stale@[i] == changed@.contains(used@[i]),
    {
        let mut stale: Vec<bool> = Vec::new();
        let mut i: usize = 0;
        while i < used.len()
            invariant
                i <= used@.len(),
                stale@.len() == i,
                forall|k: int| 0 <= k < i ==> #[trigger] stale@[k] == changed@.contains(used@[k]),
            decreases used@.len() - i,
        {
            let mut found = false;
            let mut j: usize = 0;
            while j < changed.len()
                invariant
                    i < used@.len(),
                    j <= changed@.len(),
                    found == changed@.take(j as int).contains(used@[i as int]),
                decreases changed@.len() - j,
            {
                if changed[j] == used[i] {
                    found = true;
                }
                assert(changed@.take(j + 1) =~= changed@.take(j as int).push(changed@[j as int]));
                proof {
                    let before = changed@.take(j as int);
                    let wanted = used@[i as int];
                    if before.contains(wanted) {
                        let k = choose|k: int| 0 <= k < before.len() && before[k] == wanted;
                        assert(before.push(changed@[j as int])[k] == wanted);
                    }
                    if changed@[j as int] == wanted {
                        assert(before.push(changed@[j as int])[j as int] == wanted);
                    }
                }
                j = j + 1;
            }
            assert(changed@.take(changed@.len() as int) =~= changed@);
            stale.push(found);
            i = i + 1;
        }
        stale
    }
}

/// A glyph that a sequence holds has a cell in the table made of it.
pub proof fn lemma_grid_cells_has(glyphs: Seq<char>, cols: int, glyph: char)
    ensures
        grid_cells(glyphs, cols).contains_key(glyph) <==> glyphs.contains(glyph),
    decreases glyphs.len(),
{
    if glyphs.len() > 0 {
        lemma_grid_cells_has(glyphs.drop_last(), cols, glyph);
        if glyphs.contains(glyph) {
            let i = choose|i: int| 0 <= i < glyphs.len() && glyphs[i] == glyph;
            if i < glyphs.len() - 1 {
                assert(glyphs.drop_last()[i] == glyph);
            }
        }
        if glyphs.drop_last().contains(glyph) {
            let i = choose|i: int| 0 <= i < glyphs.drop_last().len() && glyphs.drop_last()[i] == glyph;
            assert(glyphs[i] == glyph);
        }
    }
}

/// The glyph at place `i` of the sequence has the cell of that place, column
/// `i % cols` of row `i / cols`, unless it occurs again later.
pub proof fn lemma_grid_cells_at(glyphs: Seq<char>, cols: int, i: int)
    requires
        0 <= i < glyphs.len(),
        forall|j: int| i < j < glyphs.len() ==> glyphs[j] != glyphs[i],
    ensures
        grid_cells(glyphs, cols).contains_key(glyphs[i]),
        grid_cells(glyphs, cols)[glyphs[i]] == cell_of(i, cols),
    decreases glyphs.len(),
{
    if i < glyphs.len() - 1 {
        assert(glyphs.drop_last()[i] == glyphs[i]);
        assert forall|j: int| i < j < glyphs.drop_last().len() implies glyphs.drop_last()[j]
            != glyphs.drop_last()[i] by {
            assert(glyphs.drop_last()[j] == glyphs[j]);
        }
        lemma_grid_cells_at(glyphs.drop_last(), cols, i);
        assert(glyphs.last() == glyphs[glyphs.len() - 1]);
    }
}

/// On the sheet of code page 437 the glyph of each code has the cell of that
/// code: column `index % 16` of row `index / 16`.
pub proof fn lemma_code_page_cell(index: int)
    requires
        0 <= index < 256,
    ensures
        grid_cells(cp_437_glyphs(), 16).contains_key(cp_437_glyph(index)),
        grid_cells(cp_437_glyphs(), 16)[cp_437_glyph(index)] == cell_of(index, 16),
{
    lemma_cp_437_distinct();
    lemma_grid_cells_at(cp_437_glyphs(), 16, index);
}

} // verus!
