use vstd::prelude::*;

use crate::generate::units::Length;

verus! {

/// The handle under which a font was registered.
#[derive(Clone, Copy, Debug, PartialEq, Eq, Structural)]
pub struct FontHandle {
    pub index: usize,
}

/// A registered font at a size, with the extra leading that is added to the
/// size to give the height of one line.
#[derive(Clone, Copy, Debug, PartialEq, Eq, Structural)]
pub struct Font {
    pub font_id: FontHandle,
    pub font_size: Length,
    pub font_height_offset: Length,
}

impl Font {
    /// The registered font `font_id` at `font_size`, with `font_height_offset`
    /// of extra leading.
    pub fn new(font_id: FontHandle, font_size: Length, font_height_offset: Length) -> (r: Font)
        ensures
            r == (Font { font_id, font_size, font_height_offset }),
    {
        Font { font_id, font_size, font_height_offset }
    }

    pub fn font_id(&self) -> (r: FontHandle)
        ensures
            r == self.font_id,
    {
        self.font_id
    }

    pub fn font_size(&self) -> (r: Length)
        ensures
            r == self.font_size,
    {
        self.font_size
    }

    pub fn font_height_offset(&self) -> (r: Length)
        ensures
            r == self.font_height_offset,
    {
        self.font_height_offset
    }

    /// The same font at another size.
    pub fn with_font_size(&self, font_size: Length) -> (r: Font)
        ensures
            r == (Font { font_size, ..*self }),
    {
        Font { font_id: self.font_id, font_size, font_height_offset: self.font_height_offset }
    }

    /// The same font with other leading.
    pub fn with_font_height_offset(&self, font_height_offset: Length) -> (r: Font)
        ensures
            r == (Font { font_height_offset, ..*self }),
    {
        Font { font_id: self.font_id, font_size: self.font_size, font_height_offset }
    }

    /// The height of one line set in this font.
    pub open spec fn spec_line_height(&self) -> Length {
        self.font_size.spec_plus(self.font_height_offset)
    }

    /// The height of one line set in this font: its size plus its extra leading.
    pub fn line_height(&self) -> (r: Length)
        ensures
            r == self.spec_line_height(),
    {
        self.font_size.plus(self.font_height_offset)
    }
}

} // verus!
