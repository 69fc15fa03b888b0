//! Where the lines of a text go on a grid, given an anchor and a pivot.
//!
//! A text is split into lines. The lines are stacked downwards from a top row
//! that depends on their number and on the pivot's vertical place, and each
//! line is shifted to the left by a share of its length that depends on the
//! pivot's horizontal place. The glyphs of a line go to consecutive places in
//! the row-major order of the tiles.

use bevy::color::Color;
use vstd::prelude::*;

use crate::point::round_halves;
use crate::tile::Tile;

verus! {

/// Reads a text from `from` on, where the line that is being read began at
/// `start`, and adds the lines it finds to `acc`. A line ends before a line
/// feed, or before a carriage return that a line feed follows; what is left
/// after the last line feed is a line if it is not empty.
pub open spec fn scan_lines(
    s: Seq<char>,
    start: int,
    from: int,
    acc: Seq<Seq<char>>,
) -> Seq<Seq<char>>
    decreases s.len() - from,
{
    if from >= s.len() {
        if start < s.len() {
            acc.push(s.subrange(start, s.len() as int))
        } else {
            acc
        }
    } else if s[from] == '\n' {
        let end = if start < from && s[from - 1] == '\r' {
            from - 1
        } else {
            from
        };
        scan_lines(s, from + 1, from + 1, acc.push(s.subrange(start, end)))
    } else {
        scan_lines(s, start, from + 1, acc)
    }
}

/// The lines of a text.
pub open spec fn text_lines(s: Seq<char>) -> Seq<Seq<char>> {
    scan_lines(s, 0, 0, Seq::empty())
}

/// The parts of `s` that the spans cut out, in their order.
pub open spec fn cut(s: Seq<char>, spans: Seq<(usize, usize)>) -> Seq<Seq<char>> {
    Seq::new(spans.len(), |i: int| s.subrange(spans[i].0 as int, spans[i].1 as int))
}

/// Every span lies within a text of length `len`.
pub open spec fn spans_within(spans: Seq<(usize, usize)>, len: nat) -> bool {
    forall|i: int| 0 <= i < spans.len() ==> (#[trigger] spans[i]).0 <= spans[i].1 <= len
}

/// The lines of a text, each as the places where it begins and ends.
pub fn line_spans(text: &Vec<char>) -> (spans: Vec<(usize, usize)>)
    ensures
        spans_within(spans@, text@.len()),
        cut(text@, spans@) == text_lines(text@),
{
    let mut spans: Vec<(usize, usize)> = Vec::new();
    let mut start: usize = 0;
    let mut from: usize = 0;
    assert(cut(text@, spans@) =~= Seq::<Seq<char>>::empty());
    while from < text.len()
        invariant
            start <= from <= text@.len(),
            spans_within(spans@, text@.len()),
            scan_lines(text@, start as int, from as int, cut(text@, spans@)) == text_lines(text@),
        decreases text@.len() - from,
    {
        if text[from] == '\n' {
            let end = if start < from && text[from - 1] == '\r' {
                from - 1
            } else {
                from
            };
            let ghost before = spans@;
            spans.push((start, end));
            assert(cut(text@, spans@) =~= cut(text@, before).push(
                text@.subrange(start as int, end as int),
            ));
            start = from + 1;
        }
        from = from + 1;
    }
    if start < text.len() {
        let ghost before = spans@;
        spans.push((start, text.len()));
        assert(cut(text@, spans@) =~= cut(text@, before).push(
            text@.subrange(start as int, text@.len() as int),
        ));
    }
    spans
}

/// The characters of a string.
pub fn chars_of(s: &str) -> (chars: Vec<char>)
    ensures
        chars@ == s@,
{
    let mut chars: Vec<char> = Vec::new();
    for c in it: s.chars()
        invariant
            it.seq() == s@,
            chars@ == it.seq().take(it.index() as int),
    {
        chars.push(c);
        assert(it.seq().take(it.index() + 1) =~= it.seq().take(it.index() as int).push(c));
    }
    assert(chars@ =~= s@);
    chars
}

/// `String::from_iter` on the characters of a vector: the string made of
/// them, in their order.
#[verifier::external_body]
pub(crate) fn string_of(chars: &Vec<char>) -> (s: String)
    ensures
        s@ == chars@,
{
    String::from_iter(chars.iter())
}

/// The share of `n` that a pivot at `halves` halves takes, rounded half away
/// from zero.
pub fn share(n: usize, halves: u8) -> (r: usize)
    requires
        halves <= 2,
    ensures
        r == round_halves(n * halves),
        r <= n,
{
    if halves == 0 {
        0
    } else if halves == 1 {
        n / 2 + n % 2
    } else {
        assert(round_halves(n * 2) == n) by (nonlinear_arith);
        n
    }
}

/// How many glyphs of a line are written: all of them, but no more than the
/// grid is wide.
pub open spec fn line_len(line: Seq<char>, width: int) -> int {
    if line.len() <= width {
        line.len() as int
    } else {
        width
    }
}

/// The column in which a line of `len` glyphs begins.
pub open spec fn line_start(anchor_x: int, len: int, halves_x: int) -> int {
    anchor_x - round_halves((len - 1) * halves_x)
}

/// The row of the first of `count` lines.
pub open spec fn top_row(anchor_y: int, count: int, halves_y: int) -> int {
    anchor_y + round_halves((count - 1) * (2 - halves_y))
}

/// The tiles after `glyphs` were written to the places from `at` on, with the
/// colours that are given. Places outside the tiles take no glyph.
pub open spec fn write_run(
    tiles: Seq<Tile>,
    at: int,
    glyphs: Seq<char>,
    fg: Option<Color>,
    bg: Option<Color>,
) -> Seq<Tile> {
    Seq::new(
        tiles.len(),
        |k: int|
            if at <= k < at + glyphs.len() {
                tiles[k].with_glyph(glyphs[k - at]).with_colors(fg, bg)
            } else {
                tiles[k]
            },
    )
}

/// The tiles after the lines from `from` on were written. Line `i` goes to
/// row `top - i`; the first line whose row is not on the grid ends the
/// writing.
pub open spec fn write_lines(
    tiles: Seq<Tile>,
    width: int,
    height: int,
    anchor_x: int,
    top: int,
    halves_x: int,
    lines: Seq<Seq<char>>,
    from: int,
    fg: Option<Color>,
    bg: Option<Color>,
) -> Seq<Tile>
    decreases lines.len() - from,
{
    let y = top - from;
    if from < 0 || from >= lines.len() || y < 0 || y >= height {
        tiles
    } else {
        let len = line_len(lines[from], width);
        let x = line_start(anchor_x, len, halves_x);
        write_lines(
            write_run(tiles, y * width + x, lines[from].take(len), fg, bg),
            width,
            height,
            anchor_x,
            top,
            halves_x,
            lines,
            from + 1,
            fg,
            bg,
        )
    }
}

/// The tiles of a `width` by `height` grid after `text` was written at
/// `anchor` with a pivot at `halves` halves.
pub open spec fn string_written(
    tiles: Seq<Tile>,
    width: int,
    height: int,
    anchor: (int, int),
    halves: (int, int),
    text: Seq<char>,
    fg: Option<Color>,
    bg: Option<Color>,
) -> Seq<Tile> {
    write_lines(
        tiles,
        width,
        height,
        anchor.0,
        top_row(anchor.1, text_lines(text).len() as int, halves.1),
        halves.0,
        text_lines(text),
        0,
        fg,
        bg,
    )
}

/// From a place after which no line feed follows, the rest of the text is
/// one line, or none if nothing is left of it.
pub proof fn lemma_scan_last_line(s: Seq<char>, start: int, from: int, acc: Seq<Seq<char>>)
    requires
        0 <= start <= from <= s.len(),
        forall|k: int| from <= k < s.len() ==> s[k] != '\n',
    ensures
        scan_lines(s, start, from, acc) == if start < s.len() {
            acc.push(s.subrange(start, s.len() as int))
        } else {
            acc
        },
    decreases s.len() - from,
{
    if from < s.len() {
        lemma_scan_last_line(s, start, from + 1, acc);
    }
}

/// A text without a line feed is one line, and the empty text is none.
pub proof fn lemma_text_without_line_feed(text: Seq<char>)
    requires
        forall|k: int| 0 <= k < text.len() ==> text[k] != '\n',
    ensures
        text.len() == 0 ==> text_lines(text) == Seq::<Seq<char>>::empty(),
        text.len() > 0 ==> text_lines(text) == seq![text],
{
    lemma_scan_last_line(text, 0, 0, Seq::empty());
    if text.len() > 0 {
        assert(text.subrange(0, text.len() as int) =~= text);
        assert(Seq::<Seq<char>>::empty().push(text) =~= seq![text]);
    }
}

/// Writing the empty text changes nothing.
pub proof fn lemma_empty_text_written(
    tiles: Seq<Tile>,
    width: int,
    height: int,
    anchor: (int, int),
    halves: (int, int),
    fg: Option<Color>,
    bg: Option<Color>,
)
    ensures
        string_written(tiles, width, height, anchor, halves, Seq::empty(), fg, bg) == tiles,
{
    lemma_text_without_line_feed(Seq::empty());
}

/// A text of one line is written into the row of its anchor, from the
/// anchor's column less the share of the line that lies left of the pivot,
/// or not at all if that row is not on the grid.
pub proof fn lemma_one_line_written(
    tiles: Seq<Tile>,
    width: int,
    height: int,
    anchor: (int, int),
    halves: (int, int),
    text: Seq<char>,
    fg: Option<Color>,
    bg: Option<Color>,
)
    requires
        text.len() > 0,
        forall|k: int| 0 <= k < text.len() ==> text[k] != '\n',
    ensures
        string_written(tiles, width, height, anchor, halves, text, fg, bg) == if 0 <= anchor.1
            < height {
            write_run(
                tiles,
                anchor.1 * width + line_start(anchor.0, line_len(text, width), halves.0),
                text.take(line_len(text, width)),
                fg,
                bg,
            )
        } else {
            tiles
        },
{
    lemma_text_without_line_feed(text);
    let lines = text_lines(text);
    assert(lines.len() == 1 && lines[0] == text);
    let top = top_row(anchor.1, 1, halves.1);
    assert(top == anchor.1);
    if 0 <= anchor.1 < height {
        let once = write_run(
            tiles,
            anchor.1 * width + line_start(anchor.0, line_len(text, width), halves.0),
            text.take(line_len(text, width)),
            fg,
            bg,
        );
        assert(write_lines(once, width, height, anchor.0, top, halves.0, lines, 1, fg, bg) == once);
        assert(write_lines(tiles, width, height, anchor.0, top, halves.0, lines, 0, fg, bg)
            == write_lines(once, width, height, anchor.0, top, halves.0, lines, 1, fg, bg));
    }
}

} // verus!
