use vstd::prelude::*;

use crate::generate::element::element_builder::ElementBuilder;
use crate::generate::outline::LineStyle;
use crate::generate::outline::TextOutline;
use crate::generate::units::Length;

verus! {

/// A horizontal rule across the region, with padding around it.
#[derive(Clone, Copy, Debug, PartialEq, Eq, Structural)]
pub struct Line {
    pub outline: TextOutline,
}

impl Line {
    pub fn new(outline: TextOutline) -> (r: Line)
        ensures
            r == (Line { outline }),
    {
        Line { outline }
    }

    /// The name of this kind of element, as warnings give it.
    pub fn display_name(&self) -> (name: &'static str)
        ensures
            name@ == "Line"@,
    {
        "Line"
    }

    /// The height that the rule takes: its thickness and the padding above
    /// and below it.
    pub open spec fn height(&self) -> Length {
        self.outline.padding.top.spec_plus(self.outline.thickness).spec_plus(
            self.outline.padding.bottom,
        )
    }

    /// A rule takes all the width that is left.
    pub fn calculate_width(&self, builder: &ElementBuilder) -> (width: Length)
        ensures
            width == builder@.remaining_width_from_cursor(),
    {
        builder.remaining_width_from_cursor()
    }

    pub fn calculate_height(&self, builder: &ElementBuilder) -> (height: Length)
        ensures
            height == self.height(),
    {
        self.outline.padding.top.plus(self.outline.thickness).plus(self.outline.padding.bottom)
    }

    pub fn build(&self, builder: &mut ElementBuilder)
        requires
            old(builder)@.wf(),
        ensures
            final(builder)@ == old(builder)@.with_rule(
                self.outline.padding,
                LineStyle { color: self.outline.color, thickness: self.outline.thickness },
            ),
            old(builder)@.grows_into(final(builder)@),
    {
        let style = self.outline.line_style();
        builder.draw_line(&self.outline.padding, &style);
    }
}

} // verus!
