//! What is written into a tile or a run of tiles: glyphs, and the colours
//! that go with them where the caller names any.

use bevy::color::Color;
use vstd::prelude::*;
use vstd::string::*;

use crate::tile::Tile;

verus! {

/// A glyph and the colours to write with it. A colour that is `None` leaves
/// the tile's colour as it is.
#[derive(Clone, Copy, Debug, PartialEq)]
pub struct TileFormat {
    pub glyph: char,
    pub fg_color: Option<Color>,
    pub bg_color: Option<Color>,
}

impl TileFormat {
    /// The tile that `tile` becomes when this is written into it.
    pub open spec fn applied(self, tile: Tile) -> Tile {
        tile.with_glyph(self.glyph).with_colors(self.fg_color, self.bg_color)
    }

    /// Writes the glyph and the colours that are given into `tile`.
    pub fn apply(&self, tile: &mut Tile)
        ensures
            *final(tile) == self.applied(*old(tile)),
    {
        tile.glyph = self.glyph;
        if let Some(c) = self.fg_color {
            tile.fg_color = c;
        }
        if let Some(c) = self.bg_color {
            tile.bg_color = c;
        }
    }
}

/// Anything that names a glyph, with or without colours.
pub trait TileFormatter: Copy {
    /// The glyph and colours that this stands for.
    spec fn spec_format(&self) -> TileFormat;

    fn format(self) -> (r: TileFormat)
        ensures
            r == self.spec_format(),
    ;

    /// The same with `color` as the foreground colour.
    fn fg(self, color: Color) -> (r: TileFormat)
        ensures
            r == (TileFormat { fg_color: Some(color), ..self.spec_format() }),
    ;

    /// The same with `color` as the background colour.
    fn bg(self, color: Color) -> (r: TileFormat)
        ensures
            r == (TileFormat { bg_color: Some(color), ..self.spec_format() }),
    ;
}

impl TileFormatter for char {
    open spec fn spec_format(&self) -> TileFormat {
        TileFormat { glyph: *self, fg_color: None, bg_color: None }
    }

    fn format(self) -> (r: TileFormat) {
        TileFormat { glyph: self, fg_color: None, bg_color: None }
    }

    fn fg(self, color: Color) -> (r: TileFormat) {
        TileFormat { glyph: self, fg_color: Some(color), bg_color: None }
    }

    fn bg(self, color: Color) -> (r: TileFormat) {
        TileFormat { glyph: self, fg_color: None, bg_color: Some(color) }
    }
}

impl TileFormatter for TileFormat {
    open spec fn spec_format(&self) -> TileFormat {
        *self
    }

    fn format(self) -> (r: TileFormat) {
        self
    }

    fn fg(self, color: Color) -> (r: TileFormat) {
        TileFormat { glyph: self.glyph, fg_color: Some(color), bg_color: self.bg_color }
    }

    fn bg(self, color: Color) -> (r: TileFormat) {
        TileFormat { glyph: self.glyph, fg_color: self.fg_color, bg_color: Some(color) }
    }
}

/// A text and the colours to write it in. A colour that is `None` leaves the
/// colours of the tiles as they are.
#[derive(Clone, Debug, PartialEq)]
pub struct FormattedString {
    pub string: String,
    pub fg_color: Option<Color>,
    pub bg_color: Option<Color>,
}

/// Anything that names a text, with or without colours.
pub trait StringFormatter: Sized {
    /// The characters of the text.
    spec fn text(&self) -> Seq<char>;

    /// The foreground colour to write in, if one is given.
    spec fn fg_override(&self) -> Option<Color>;

    /// The background colour to write in, if one is given.
    spec fn bg_override(&self) -> Option<Color>;

    fn formatted(self) -> (r: FormattedString)
        ensures
            r.string@ == self.text(),
            r.fg_color == self.fg_override(),
            r.bg_color == self.bg_override(),
    ;

    /// The same text with `color` as the foreground colour.
    fn fg(self, color: Color) -> (r: FormattedString)
        ensures
            r.string@ == self.text(),
            r.fg_color == Some(color),
            r.bg_color == self.bg_override(),
    ;

    /// The same text with `color` as the background colour.
    fn bg(self, color: Color) -> (r: FormattedString)
        ensures
            r.string@ == self.text(),
            r.fg_color == self.fg_override(),
            r.bg_color == Some(color),
    ;
}

impl<'a> StringFormatter for &'a str {
    open spec fn text(&self) -> Seq<char> {
        self@
    }

    open spec fn fg_override(&self) -> Option<Color> {
        None
    }

    open spec fn bg_override(&self) -> Option<Color> {
        None
    }

    fn formatted(self) -> (r: FormattedString) {
        FormattedString { string: String::from_str(self), fg_color: None, bg_color: None }
    }

    fn fg(self, color: Color) -> (r: FormattedString) {
        FormattedString { string: String::from_str(self), fg_color: Some(color), bg_color: None }
    }

    fn bg(self, color: Color) -> (r: FormattedString) {
        FormattedString { string: String::from_str(self), fg_color: None, bg_color: Some(color) }
    }
}

impl StringFormatter for String {
    open spec fn text(&self) -> Seq<char> {
        self@
    }

    open spec fn fg_override(&self) -> Option<Color> {
        None
    }

    open spec fn bg_override(&self) -> Option<Color> {
        None
    }

    fn formatted(self) -> (r: FormattedString) {
        FormattedString { string: self, fg_color: None, bg_color: None }
    }

    fn fg(self, color: Color) -> (r: FormattedString) {
        FormattedString { string: self, fg_color: Some(color), bg_color: None }
    }

    fn bg(self, color: Color) -> (r: FormattedString) {
        FormattedString { string: self, fg_color: None, bg_color: Some(color) }
    }
}

impl StringFormatter for FormattedString {
    open spec fn text(&self) -> Seq<char> {
        self.string@
    }

    open spec fn fg_override(&self) -> Option<Color> {
        self.fg_color
    }

    open spec fn bg_override(&self) -> Option<Color> {
        self.bg_color
    }

    fn formatted(self) -> (r: FormattedString) {
        self
    }

    fn fg(self, color: Color) -> (r: FormattedString) {
        FormattedString { string: self.string, fg_color: Some(color), bg_color: self.bg_color }
    }

    fn bg(self, color: Color) -> (r: FormattedString) {
        FormattedString { string: self.string, fg_color: self.fg_color, bg_color: Some(color) }
    }
}

} // verus!
