//! The frame that may be drawn around a terminal. It lies outside the tiles
//! that can be addressed.

use vstd::prelude::*;

verus! {

/// The glyphs of a frame.
#[derive(Clone, Copy, Debug, PartialEq, Eq)]
pub enum Border {
    /// Single lines.
    SingleLine,
    /// Double lines.
    DoubleLine,
    /// Glyphs of the caller's choice: the corners in the order top left, top
    /// right, bottom left, bottom right, and the edges in the order top, left,
    /// right, bottom.
    Custom { corners: [char; 4], edges: [char; 4] },
}

impl Border {
    pub fn single_line() -> (b: Border)
        ensures
            b == Border::SingleLine,
    {
        Border::SingleLine
    }

    pub fn double_line() -> (b: Border)
        ensures
            b == Border::DoubleLine,
    {
        Border::DoubleLine
    }

    /// The four corner glyphs: top left, top right, bottom left, bottom right.
    pub open spec fn spec_corners(self) -> Seq<char> {
        match self {
            Border::SingleLine => seq!['\u{250c}', '\u{2510}', '\u{2514}', '\u{2518}'],
            Border::DoubleLine => seq!['\u{2554}', '\u{2557}', '\u{255a}', '\u{255d}'],
            Border::Custom { corners, edges } => corners@,
        }
    }

    /// The four edge glyphs: top, left, right, bottom.
    pub open spec fn spec_edges(self) -> Seq<char> {
        match self {
            Border::SingleLine => seq!['\u{2500}', '\u{2502}', '\u{2502}', '\u{2500}'],
            Border::DoubleLine => seq!['\u{2550}', '\u{2551}', '\u{2551}', '\u{2550}'],
            Border::Custom { corners, edges } => edges@,
        }
    }

    pub fn corners(&self) -> (r: [char; 4])
        ensures
            r@ == self.spec_corners(),
    {
        let r = match self {
            Border::SingleLine => ['\u{250c}', '\u{2510}', '\u{2514}', '\u{2518}'],
            Border::DoubleLine => ['\u{2554}', '\u{2557}', '\u{255a}', '\u{255d}'],
            Border::Custom { corners, edges } => *corners,
        };
        assert(r@ =~= self.spec_corners());
        r
    }

    pub fn edges(&self) -> (r: [char; 4])
        ensures
            r@ == self.spec_edges(),
    {
        let r = match self {
            Border::SingleLine => ['\u{2500}', '\u{2502}', '\u{2502}', '\u{2500}'],
            Border::DoubleLine => ['\u{2550}', '\u{2551}', '\u{2551}', '\u{2550}'],
            Border::Custom { corners, edges } => *edges,
        };
        assert(r@ =~= self.spec_edges());
        r
    }
}

} // verus!
