use vstd::prelude::*;

use crate::generate::element::builder_model::lemma_text_on_one_page;
use crate::generate::element::builder_model::merged_pages;
use crate::generate::element::builder_model::BuilderModel;
use crate::generate::element::element_builder::ColumnWidth;
use crate::generate::element::element_builder::ElementBuilder;
use crate::generate::element::Element;
use crate::generate::font::Font;
use crate::generate::text_gen::LayoutBackend;
use crate::generate::text_gen::WordModel;
use crate::generate::units::Length;
use crate::generate::units::Point;

verus! {

/// How wide the left side of a column is.
#[derive(Clone, Copy, Debug, PartialEq, Eq, Structural)]
pub enum LeftWidth {
    /// A given width.
    Fixed(Length),
    /// A share of the width that is left: so many of so many equal parts,
    /// as 1 of 3 for a third. No parts at all are no width.
    Percent(u32, u32),
    /// As wide as the left element asks, as far as the right side keeps its
    /// least width.
    Auto,
    /// As wide as the least column width that the document is configured
    /// with.
    Configured,
}

/// Two elements side by side, each laid out and paginated on its own.
pub struct Column {
    pub right: Box<Element>,
    pub left: Box<Element>,
    pub left_width: LeftWidth,
    /// The width that the right side keeps when the left one is `Auto`;
    /// where none is given, the least column width that the document is
    /// configured with.
    pub min_right_width: Option<Length>,
}

/// The height at which the cursor stands below two columns. Where both
/// ended on the same page, the lower of their cursors; else the cursor of
/// the side that ran over more pages, which is further down the document.
pub open spec fn spec_column_cursor_y(
    left_pages: nat,
    left_y: Length,
    right_pages: nat,
    right_y: Length,
) -> Length {
    if left_pages == right_pages {
        left_y.spec_min(right_y)
    } else if left_pages > right_pages {
        left_y
    } else {
        right_y
    }
}

/// The height at which the cursor stands below two columns that ended on
/// so many pages, at these heights.
pub fn column_cursor_y(left_pages: usize, left_y: Length, right_pages: usize, right_y: Length) -> (y:
    Length)
    ensures
        y == spec_column_cursor_y(left_pages as nat, left_y, right_pages as nat, right_y),
{
    if left_pages == right_pages {
        left_y.min(right_y)
    } else if left_pages > right_pages {
        left_y
    } else {
        right_y
    }
}

impl BuilderModel {
    /// The region after two columns that were laid out in `left` and
    /// `right` have ended: the left pages are merged in, then the right
    /// ones, and the cursor stands below both.
    pub open spec fn with_columns(self, left: BuilderModel, right: BuilderModel) -> BuilderModel {
        self.merged(left).merged(right).with_cursor(
            Point {
                x: self.cursor.x,
                y: spec_column_cursor_y(left.pages.len(), left.cursor.y, right.pages.len(), right.cursor.y),
            },
        )
    }
}

/// Two texts of as many lines each, set in one font, end at the same
/// height in the two columns of a region when neither leaves its first page;
/// and that is the height at which the column ends.
pub proof fn lemma_equal_texts_end_level(
    region: BuilderModel,
    width: ColumnWidth,
    left: Seq<Seq<WordModel>>,
    right: Seq<Seq<WordModel>>,
    font: Font,
)
    requires
        region.wf(),
        left.len() == right.len(),
        region.left_column(width).with_text(left, font).pages.len() == 1,
        region.right_column(width).with_text(right, font).pages.len() == 1,
    ensures
        region.left_column(width).with_text(left, font).cursor.y == region.right_column(
            width,
        ).with_text(right, font).cursor.y,
        region.with_columns(
            region.left_column(width).with_text(left, font),
            region.right_column(width).with_text(right, font),
        ).cursor.y == region.left_column(width).with_text(left, font).cursor.y,
{
    let l = region.left_column(width);
    let r = region.right_column(width);
    lemma_text_on_one_page(l, left, font);
    lemma_text_on_one_page(r, right, font);
}

/// Two texts of one line each, set in one font, side by side in a region
/// that has room for a line: both stay on the page, both end one line
/// height below the cursor, and so does the column, which adds no page. The
/// columns do not keep the room that the region keeps free at its bottom
/// beyond the margin, so that room must not be negative.
pub proof fn lemma_one_line_texts_end_level(
    region: BuilderModel,
    width: ColumnWidth,
    left: Seq<Seq<WordModel>>,
    right: Seq<Seq<WordModel>>,
    font: Font,
)
    requires
        region.wf(),
        left.len() == 1,
        right.len() == 1,
        region.added_padding_bottom@ >= 0,
        font.spec_line_height()@ <= region.remaining_height()@,
    ensures
        ({
            let l = region.left_column(width).with_text(left, font);
            let r = region.right_column(width).with_text(right, font);
            let below = region.cursor.y.spec_minus(font.spec_line_height());
            &&& l.pages.len() == 1
            &&& r.pages.len() == 1
            &&& l.cursor.y == below
            &&& r.cursor.y == below
            &&& region.with_columns(l, r).cursor.y == below
            &&& region.with_columns(l, r).pages.len() == region.pages.len()
        }),
{
    let l = region.left_column(width);
    let r = region.right_column(width);
    let height = font.spec_line_height();
    assert(l.remaining_height()@ >= region.remaining_height()@);
    assert(r.remaining_height()@ >= region.remaining_height()@);
    if height@ > 0 {
        assert(l.remaining_height()@ / height@ >= 1) by (nonlinear_arith)
            requires
                0 < height@ <= l.remaining_height()@,
        ;
        assert(r.remaining_height()@ / height@ >= 1) by (nonlinear_arith)
            requires
                0 < height@ <= r.remaining_height()@,
        ;
    }
    assert(l.lines_that_fit(height, 1) == 1);
    assert(r.lines_that_fit(height, 1) == 1);
    assert(height.spec_times(1) == height);
    assert(l.with_text(left, font).pages.len() == 1);
    assert(r.with_text(right, font).pages.len() == 1);
}

/// Where one of two columns runs over more pages than the other, the
/// column ends where that side ends: the last page is that side's last
/// page, and the cursor stands at the height of that side's cursor.
pub proof fn lemma_longer_side_ends_the_column(
    region: BuilderModel,
    width: ColumnWidth,
    left: BuilderModel,
    right: BuilderModel,
)
    requires
        region.wf(),
        region.pages.len() <= usize::MAX,
        region.left_column(width).grows_into(left),
        region.right_column(width).grows_into(right),
        left.pages.len() != right.pages.len(),
    ensures
        left.pages.len() > right.pages.len() ==> {
            &&& region.with_columns(left, right).pages.last() == left.pages.last()
            &&& region.with_columns(left, right).cursor.y == left.cursor.y
        },
        right.pages.len() > left.pages.len() ==> {
            &&& region.with_columns(left, right).pages.last() == right.pages.last()
            &&& region.with_columns(left, right).cursor.y == right.cursor.y
        },
{
    let start = region.pages.len() - 1;
    let once = merged_pages(region.pages, left.pages, start);
    let twice = merged_pages(once, right.pages, start);
    assert(region.with_columns(left, right).pages == twice);
    if left.pages.len() > right.pages.len() {
        assert(twice.last() =~= left.pages.last());
    } else {
        assert(twice.last() =~= right.pages.last());
    }
}

impl ElementBuilder {
    /// Ends two columns: takes over the pages of the left one, then those
    /// of the right one, and puts the cursor below both.
    pub fn finish_columns(&mut self, left: ElementBuilder, right: ElementBuilder)
        requires
            left.starting_page <= old(self)@.pages.len(),
            right.starting_page <= old(self)@.pages.len(),
        ensures
            final(self)@ == old(self)@.with_columns(left@, right@),
            old(self)@.grows_into(final(self)@),
    {
        let y = column_cursor_y(left.pages.len(), left.cursor.y, right.pages.len(), right.cursor.y);
        self.merge(left);
        self.merge(right);
        self.update_cursor(y);
    }
}

impl Column {
    /// The width that the right side keeps in `region` when the left one
    /// is `Auto`: the one that the column was given, else the least column
    /// width of the configuration.
    pub open spec fn spec_min_right(&self, region: BuilderModel) -> Length {
        match self.min_right_width {
            Some(width) => width,
            None => region.config.min_column_width,
        }
    }

    /// How the width that is left in `region` is split between the two
    /// sides.
    pub open spec fn spec_split<B: LayoutBackend>(&self, backend: &B, region: BuilderModel) -> ColumnWidth {
        match self.left_width {
            LeftWidth::Fixed(w) => ColumnWidth::Fixed(w),
            LeftWidth::Percent(parts, of) => ColumnWidth::Percent(parts, of),
            LeftWidth::Auto => ColumnWidth::Auto {
                content: self.left.width(backend, region),
                min_right: self.spec_min_right(region),
            },
            LeftWidth::Configured => ColumnWidth::Fixed(region.config.min_column_width),
        }
    }

    /// The height that the column asks for: the greater of the heights of
    /// its sides, each measured in its own region.
    pub open spec fn height<B: LayoutBackend>(&self, backend: &B, region: BuilderModel) -> Length
        decreases self, 0int, 0int,
    {
        self.left.height(backend, region.left_column(self.spec_split(backend, region))).spec_max(
            self.right.height(backend, region.right_column(self.spec_split(backend, region))),
        )
    }

    /// What laying out the column makes of `region`: each side in a
    /// region of its own, and both taken back.
    pub open spec fn laid_out<B: LayoutBackend>(&self, backend: &B, region: BuilderModel) -> BuilderModel
        decreases self, 1int, 0int,
    {
        region.with_columns(
            self.left.laid_out(backend, region.left_column(self.spec_split(backend, region))),
            self.right.laid_out(backend, region.right_column(self.spec_split(backend, region))),
        )
    }

    /// Two elements side by side, the left one as wide as the least column
    /// width that the document is configured with: 50 mm, unless the
    /// configuration says otherwise.
    pub fn new(left: Element, right: Element) -> (column: Column)
        ensures
            *column.left == left,
            *column.right == right,
            column.left_width == LeftWidth::Configured,
            column.min_right_width is None,
    {
        Column {
            left_width: LeftWidth::Configured,
            left: Box::new(left),
            right: Box::new(right),
            min_right_width: None,
        }
    }

    /// Two boxed elements side by side, the left one as wide as the least
    /// column width that the document is configured with.
    pub fn new_with_box(left: Box<Element>, right: Box<Element>) -> (column: Column)
        ensures
            column.left == left,
            column.right == right,
            column.left_width == LeftWidth::Configured,
            column.min_right_width is None,
    {
        Column {
            left,
            right,
            left_width: LeftWidth::Configured,
            min_right_width: None,
        }
    }

    /// Sets how wide the left side is.
    pub fn with_left_width(self, width: LeftWidth) -> (column: Column)
        ensures
            column == (Column { left_width: width, ..self }),
    {
        let mut column = self;
        column.left_width = width;
        column
    }

    /// Sets the width that the right side keeps when the left one is
    /// `Auto`.
    pub fn with_min_right_width(self, width: Length) -> (column: Column)
        ensures
            column == (Column { min_right_width: Some(width), ..self }),
    {
        let mut column = self;
        column.min_right_width = Some(width);
        column
    }

    /// The name of this kind of element, as warnings give it.
    pub fn display_name(&self) -> (name: &'static str)
        ensures
            name@ == "Column"@,
    {
        "Column"
    }

    /// Two columns take all the width that is left.
    pub fn calculate_width(&self, builder: &ElementBuilder) -> (width: Length)
        ensures
            width == builder@.remaining_width_from_cursor(),
    {
        builder.remaining_width_from_cursor()
    }

    /// How the width that is left is split between the two sides.
    fn split<B: LayoutBackend>(&self, builder: &ElementBuilder, backend: &B) -> (width: ColumnWidth)
        requires
            self.left.ready(backend, builder@),
            builder@.wf(),
        ensures
            width == self.spec_split(backend, builder@),
        decreases self, 0int,
    {
        match self.left_width {
            LeftWidth::Fixed(w) => ColumnWidth::Fixed(w),
            LeftWidth::Percent(parts, of) => ColumnWidth::Percent(parts, of),
            LeftWidth::Auto => {
                let natural = self.left.calculate_width(builder, backend);
                let min_right = match self.min_right_width {
                    Some(width) => width,
                    None => builder.config.min_column_width,
                };
                ColumnWidth::Auto { content: natural, min_right }
            },
            LeftWidth::Configured => ColumnWidth::Fixed(builder.config.min_column_width),
        }
    }

    /// The greater of the heights that the two sides ask for, each measured
    /// in its own region.
    pub fn calculate_height<B: LayoutBackend>(
        &self,
        builder: &ElementBuilder,
        backend: &B,
    ) -> (height: Length)
        requires
            self.left.ready(backend, builder@),
            self.right.ready(backend, builder@),
            builder@.wf(),
        ensures
            height == self.height(backend, builder@),
        decreases self, 0int,
    {
        let width = self.split(builder, backend);
        let (left, right) = builder.generate_column_builder(width);
        let left_height = self.left.calculate_height(&left, backend);
        let right_height = self.right.calculate_height(&right, backend);
        left_height.max(right_height)
    }

    /// Lays the two sides out, each in a region of its own, and takes both
    /// back into the region of `builder`.
    pub fn build<B: LayoutBackend>(&self, builder: &mut ElementBuilder, backend: &B)
        requires
            self.left.ready(backend, old(builder)@),
            self.right.ready(backend, old(builder)@),
            old(builder)@.wf(),
        ensures
            old(builder)@.grows_into(final(builder)@),
            final(builder)@ == self.laid_out(backend, old(builder)@),
            ({
                let width = self.spec_split(backend, old(builder)@);
                let left = self.left.laid_out(backend, old(builder)@.left_column(width));
                let right = self.right.laid_out(backend, old(builder)@.right_column(width));
                &&& left.pages.len() > right.pages.len() ==> {
                    &&& final(builder)@.pages.last() == left.pages.last()
                    &&& final(builder)@.cursor.y == left.cursor.y
                }
                &&& right.pages.len() > left.pages.len() ==> {
                    &&& final(builder)@.pages.last() == right.pages.last()
                    &&& final(builder)@.cursor.y == right.cursor.y
                }
            }),
        decreases self, 1int,
    {
        let width = self.split(builder, backend);
        let (mut left, mut right) = builder.generate_column_builder(width);
        self.left.build(&mut left, backend);
        self.right.build(&mut right, backend);
        proof {
            assert(old(builder)@.pages.len() == old(builder).pages.len());
            if left@.pages.len() != right@.pages.len() {
                lemma_longer_side_ends_the_column(old(builder)@, width, left@, right@);
            }
        }
        builder.finish_columns(left, right);
    }
}

} // verus!
