use vstd::prelude::*;

use crate::generate::element::builder_model::BuilderModel;
use crate::generate::element::element_builder::ElementBuilder;
use crate::generate::text_gen::LayoutConfig;
use crate::generate::units::Length;
use crate::generate::units::Point;

verus! {

/// An element that only moves the cursor.
#[derive(Clone, Copy, Debug, PartialEq, Eq, Structural)]
pub enum CursorOffset {
    /// Puts the cursor at this height on the current page.
    Absolute(Length),
    /// Moves the cursor down by this much.
    Relative(Length),
    /// Moves the cursor down by so many lines of a font.
    LineBreaks { lines: u8, font_size: Length, font_height_offset: Length },
    /// Breaks the page so many times.
    PageBreaks(u8),
}

impl BuilderModel {
    /// The region after `count` page breaks.
    pub open spec fn after_page_breaks(self, count: nat) -> BuilderModel
        decreases count,
    {
        if count == 0 {
            self
        } else {
            self.next_page().after_page_breaks((count - 1) as nat)
        }
    }
}

impl CursorOffset {
    /// As many line breaks in the font measures of `config`.
    pub fn line_breaks(lines: u8, config: &LayoutConfig) -> (r: CursorOffset)
        ensures
            r == (CursorOffset::LineBreaks {
                lines,
                font_size: config.font_size,
                font_height_offset: config.font_height_offset,
            }),
    {
        CursorOffset::LineBreaks {
            lines,
            font_size: config.font_size,
            font_height_offset: config.font_height_offset,
        }
    }

    /// The name of this kind of element, as warnings give it.
    pub fn display_name(&self) -> (name: &'static str)
        ensures
            name@ == "Cursor Offset"@,
    {
        "Cursor Offset"
    }

    /// The height that the element takes up: what it moves the cursor
    /// down by. Setting the cursor and breaking pages take up none.
    pub open spec fn height(&self) -> Length {
        match *self {
            CursorOffset::Absolute(_) => Length { units: 0 },
            CursorOffset::Relative(dy) => dy,
            CursorOffset::LineBreaks { lines, font_size, font_height_offset } => font_size.spec_plus(
                font_height_offset,
            ).spec_times(lines as nat),
            CursorOffset::PageBreaks(_) => Length { units: 0 },
        }
    }

    /// The region after the element was laid out.
    pub open spec fn applied(&self, region: BuilderModel) -> BuilderModel {
        match *self {
            CursorOffset::Absolute(y) => region.with_cursor(Point { x: region.cursor.x, y }),
            CursorOffset::Relative(_) => region.advanced(self.height()),
            CursorOffset::LineBreaks { .. } => region.advanced(self.height()),
            CursorOffset::PageBreaks(count) => region.after_page_breaks(count as nat),
        }
    }

    pub fn calculate_width(&self, builder: &ElementBuilder) -> (width: Length)
        ensures
            width@ == 0,
    {
        Length::zero()
    }

    pub fn calculate_height(&self, builder: &ElementBuilder) -> (height: Length)
        ensures
            height == self.height(),
    {
        match *self {
            CursorOffset::Absolute(_) => Length::zero(),
            CursorOffset::Relative(dy) => dy,
            CursorOffset::LineBreaks { lines, font_size, font_height_offset } => font_size.plus(
                font_height_offset,
            ).times(lines as usize),
            CursorOffset::PageBreaks(_) => Length::zero(),
        }
    }

    pub fn build(&self, builder: &mut ElementBuilder)
        ensures
            final(builder)@ == self.applied(old(builder)@),
            old(builder)@.grows_into(final(builder)@),
    {
        match *self {
            CursorOffset::Absolute(y) => {
                builder.update_cursor(y);
            },
            CursorOffset::Relative(_) => {
                let dy = self.calculate_height(builder);
                builder.advance_cursor(dy);
            },
            CursorOffset::LineBreaks { .. } => {
                let dy = self.calculate_height(builder);
                builder.advance_cursor(dy);
            },
            CursorOffset::PageBreaks(count) => {
                let mut done: u8 = 0;
                while done < count
                    invariant
                        done <= count,
                        builder@.after_page_breaks((count - done) as nat) == old(
                            builder,
                        )@.after_page_breaks(count as nat),
                        old(builder)@.grows_into(builder@),
                    decreases count - done,
                {
                    builder.next_page();
                    done += 1;
                }
            },
        }
    }
}

} // verus!
