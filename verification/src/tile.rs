//! One cell of the grid.

use bevy::color::Color;
use vstd::prelude::*;

use crate::color::{black, clear, color_from_linear_rgba_u8, color_from_srgba_u8, white};

verus! {

/// A glyph with a foreground and a background colour.
#[derive(Clone, Copy, Debug, PartialEq)]
pub struct Tile {
    /// The glyph that is drawn.
    pub glyph: char,
    /// The colour of the glyph.
    pub fg_color: Color,
    /// The colour behind the glyph.
    pub bg_color: Color,
}

impl Tile {
    /// A blank tile that shows nothing: both colours have every channel at
    /// zero, alpha included.
    pub fn transparent() -> (t: Tile)
        ensures
            t == (Tile { glyph: ' ', fg_color: clear(), bg_color: clear() }),
    {
        Tile {
            glyph: ' ',
            fg_color: color_from_srgba_u8(0, 0, 0, 0),
            bg_color: color_from_srgba_u8(0, 0, 0, 0),
        }
    }

    /// The foreground colour of a tile that was given none: white.
    pub fn default_fg_color() -> (c: Color)
        ensures
            c == white(),
    {
        color_from_linear_rgba_u8(255, 255, 255, 255)
    }

    /// The background colour of a tile that was given none: black.
    pub fn default_bg_color() -> (c: Color)
        ensures
            c == black(),
    {
        color_from_linear_rgba_u8(0, 0, 0, 255)
    }

    /// The tile that shows `glyph` in white on black.
    pub open spec fn plain(glyph: char) -> Tile {
        Tile { glyph, fg_color: white(), bg_color: black() }
    }

    /// This tile with another glyph and the same colours.
    pub open spec fn with_glyph(self, glyph: char) -> Tile {
        Tile { glyph, ..self }
    }

    /// This tile with `fg` and `bg` written over its colours, each only where
    /// one is given.
    pub open spec fn with_colors(self, fg: Option<Color>, bg: Option<Color>) -> Tile {
        Tile {
            glyph: self.glyph,
            fg_color: if let Some(c) = fg { c } else { self.fg_color },
            bg_color: if let Some(c) = bg { c } else { self.bg_color },
        }
    }
}

impl Default for Tile {
    /// A blank glyph, white on black.
    fn default() -> (t: Tile)
        ensures
            t == Tile::plain(' '),
    {
        Tile { glyph: ' ', fg_color: Tile::default_fg_color(), bg_color: Tile::default_bg_color() }
    }
}

impl From<char> for Tile {
    /// The glyph, white on black.
    fn from(c: char) -> (t: Tile) {
        Tile { glyph: c, fg_color: Tile::default_fg_color(), bg_color: Tile::default_bg_color() }
    }
}

impl vstd::std_specs::convert::FromSpecImpl<char> for Tile {
    open spec fn obeys_from_spec() -> bool {
        true
    }

    open spec fn from_spec(c: char) -> Tile {
        Tile::plain(c)
    }
}

} // verus!
