use vstd::prelude::*;

use crate::generate::padding::Padding;
use crate::generate::units::Length;
use crate::generate::units::UNITS_PER_PT;

verus! {

/// A colour, one byte per channel.
#[derive(Clone, Copy, Debug, PartialEq, Eq, Structural)]
pub struct Rgb {
    pub r: u8,
    pub g: u8,
    pub b: u8,
}

impl Rgb {
    pub fn new(r: u8, g: u8, b: u8) -> (c: Rgb)
        ensures
            c == (Rgb { r, g, b }),
    {
        Rgb { r, g, b }
    }

    /// The grey with every channel at `level`.
    pub fn grey(level: u8) -> (c: Rgb)
        ensures
            c == (Rgb { r: level, g: level, b: level }),
    {
        Rgb { r: level, g: level, b: level }
    }
}

/// How a line is stroked.
#[derive(Clone, Copy, Debug, PartialEq, Eq, Structural)]
pub struct LineStyle {
    pub color: Rgb,
    pub thickness: Length,
}

/// A stroke together with the padding kept between it and what it frames.
#[derive(Clone, Copy, Debug, PartialEq, Eq, Structural)]
pub struct TextOutline {
    pub color: Rgb,
    pub thickness: Length,
    pub padding: Padding,
}

impl TextOutline {
    pub fn line_style(&self) -> (r: LineStyle)
        ensures
            r == (LineStyle { color: self.color, thickness: self.thickness }),
    {
        LineStyle { color: self.color, thickness: self.thickness }
    }
}

impl Default for TextOutline {
    /// A black stroke one point thick, without padding.
    fn default() -> (r: TextOutline)
        ensures
            r == (TextOutline {
                color: Rgb { r: 0, g: 0, b: 0 },
                thickness: Length { units: UNITS_PER_PT },
                padding: Padding::uniform(Length { units: 0 }),
            }),
    {
        TextOutline {
            color: Rgb::new(0, 0, 0),
            thickness: Length::from_units(UNITS_PER_PT),
            padding: Padding::none(),
        }
    }
}

} // verus!
