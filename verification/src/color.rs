//! Colours are values of the host's `Color`. The library stores and moves
//! them and never looks inside one.

use bevy::color::{Color, ColorToPacked, LinearRgba};
use vstd::prelude::*;

verus! {

#[verifier::external_type_specification]
#[verifier::external_body]
pub struct ExColor(Color);

/// The colour that `Color::srgba_u8` makes of four 8-bit channels.
pub uninterp spec fn srgba_u8_color(red: u8, green: u8, blue: u8, alpha: u8) -> Color;

/// Calls `Color::srgba_u8`, which divides each channel by 255 and stores the
/// four quotients as an sRGB colour: the result depends on the channels alone.
#[verifier::external_body]
pub(crate) fn color_from_srgba_u8(red: u8, green: u8, blue: u8, alpha: u8) -> (c: Color)
    ensures
        c == srgba_u8_color(red, green, blue, alpha),
{
    Color::srgba_u8(red, green, blue, alpha)
}

/// The linear colour that `LinearRgba::from_u8_array` makes of four 8-bit
/// channels.
pub uninterp spec fn linear_rgba_u8_color(red: u8, green: u8, blue: u8, alpha: u8) -> Color;

/// Calls `LinearRgba::from_u8_array`, which divides each channel by 255 and
/// stores the four quotients as a linear colour, and hands the result on as a
/// `Color`: it depends on the channels alone.
#[verifier::external_body]
pub(crate) fn color_from_linear_rgba_u8(red: u8, green: u8, blue: u8, alpha: u8) -> (c: Color)
    ensures
        c == linear_rgba_u8_color(red, green, blue, alpha),
{
    Color::LinearRgba(LinearRgba::from_u8_array([red, green, blue, alpha]))
}

/// Opaque white, as a linear colour with every channel at its largest value:
/// the host's `Color::WHITE`.
pub open spec fn white() -> Color {
    linear_rgba_u8_color(255, 255, 255, 255)
}

/// Opaque black, as a linear colour with the three colour channels at zero:
/// the host's `Color::BLACK`.
pub open spec fn black() -> Color {
    linear_rgba_u8_color(0, 0, 0, 255)
}

/// No colour at all, as an sRGB colour with every channel at zero, alpha too.
pub open spec fn clear() -> Color {
    srgba_u8_color(0, 0, 0, 0)
}

/// A colour together with the channel of a tile that it is meant for.
#[derive(Clone, Copy, Debug, PartialEq)]
pub enum ColorFormat {
    FgColor(Color),
    BgColor(Color),
}

/// Marks a colour as a foreground or a background colour.
pub trait ColorFormatter: Copy {
    /// The colour that the two methods wrap.
    spec fn color(&self) -> Color;

    fn fg(&self) -> (r: ColorFormat)
        ensures
            r == ColorFormat::FgColor(self.color()),
    ;

    fn bg(&self) -> (r: ColorFormat)
        ensures
            r == ColorFormat::BgColor(self.color()),
    ;
}

impl ColorFormatter for Color {
    open spec fn color(&self) -> Color {
        *self
    }

    fn fg(&self) -> (r: ColorFormat) {
        ColorFormat::FgColor(*self)
    }

    fn bg(&self) -> (r: ColorFormat) {
        ColorFormat::BgColor(*self)
    }
}

} // verus!
