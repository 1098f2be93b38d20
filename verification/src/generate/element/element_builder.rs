use vstd::prelude::*;

use crate::generate::document::Document;
use crate::generate::document::DocumentStyle;
use crate::generate::element::builder_model::merged_pages;
use crate::generate::element::builder_model::spec_auto_left_width;
use crate::generate::element::builder_model::spec_share;
use crate::generate::element::builder_model::BuilderModel;
use crate::generate::font::Font;
use crate::generate::instruction::pages_model;
use crate::generate::instruction::Instruction;
use crate::generate::instruction::PaintMode;
use crate::generate::outline::LineStyle;
use crate::generate::outline::Rgb;
use crate::generate::padding::Padding;
use crate::generate::text_gen::shape_text;
use crate::generate::text_gen::views;
use crate::generate::text_gen::LayoutBackend;
use crate::generate::text_gen::LayoutConfig;
use crate::generate::text_gen::ShapedLine;
use crate::generate::text_gen::ShapedText;
use crate::generate::text_gen::ShapedTextModel;
use crate::generate::text_gen::WordModel;
use crate::generate::units::Length;
use crate::generate::units::Point;

verus! {

/// The direction in which a cursor moves on.
#[derive(Debug, Default)]
pub enum MoveDirection {
    Right,
    #[default]
    Down,
}

/// How the items of a text list are marked.
#[derive(Debug, Clone, Copy, PartialEq, Eq, Structural)]
pub enum TextListStyle {
    Checkbox,
}

/// How wide the left one of two columns is.
#[derive(Debug, Clone, Copy, PartialEq, Eq, Structural)]
pub enum ColumnWidth {
    /// A given width.
    Fixed(Length),
    /// A share of the width that is left from the cursor: so many of so
    /// many equal parts, as 1 of 3 for a third. No parts at all are no width.
    Percent(u32, u32),
    /// As wide as its content, as far as that leaves the right column its
    /// least width.
    Auto { content: Length, min_right: Length },
}

/// The pagination state of one layout region.
pub struct ElementBuilder {
    pub style: DocumentStyle,
    pub origin: Point,
    pub cursor: Point,
    pub remaining_width: Length,
    pub starting_page: usize,
    pub pages: Vec<Vec<Instruction>>,
    pub added_padding_bottom: Length,
    pub errors: Vec<String>,
    /// How many fonts the document has registered.
    pub fonts: usize,
    /// How many images the document has registered.
    pub images: usize,
    /// The measures that elements fall back on when they are given none.
    pub config: LayoutConfig,
}

impl View for ElementBuilder {
    type V = BuilderModel;

    open spec fn view(&self) -> BuilderModel {
        BuilderModel {
            style: self.style,
            origin: self.origin,
            cursor: self.cursor,
            remaining_width: self.remaining_width,
            starting_page: self.starting_page,
            pages: pages_model(self.pages@),
            added_padding_bottom: self.added_padding_bottom,
            errors: views(self.errors@),
            fonts: self.fonts,
            images: self.images,
            config: self.config,
        }
    }
}

/// `parts` of `of` equal parts of `width`, rounded towards zero; nothing
/// where there are no parts at all.
pub fn share(width: Length, parts: u32, of: u32) -> (r: Length)
    ensures
        r == spec_share(width, parts, of),
{
    if of == 0 {
        Length::zero()
    } else {
        width.scale(parts as i64, of as i64)
    }
}

/// The width of a column that is as wide as its content: `natural`, but no
/// more than leaves `min_right` of `remaining` to the column beside it, and
/// not less than nothing.
pub fn auto_left_width(natural: Length, remaining: Length, min_right: Length) -> (width: Length)
    ensures
        width == spec_auto_left_width(natural, remaining, min_right),
{
    natural.min(remaining.minus(min_right)).max(Length::zero())
}

impl ElementBuilder {
    /// The root region of a document with pages of `style` that has
    /// registered `fonts` fonts and `images` images and falls back on
    /// `config`: it starts at the top left corner inside the margins, on one
    /// empty page.
    pub open spec fn root(
        style: DocumentStyle,
        fonts: usize,
        images: usize,
        config: LayoutConfig,
    ) -> BuilderModel {
        BuilderModel {
            style,
            origin: Point { x: style.padding.left, y: style.spec_page_top() },
            cursor: Point { x: style.padding.left, y: style.spec_page_top() },
            remaining_width: style.spec_inner_width(),
            starting_page: 0,
            pages: seq![Seq::empty()],
            added_padding_bottom: Length { units: 0 },
            errors: Seq::empty(),
            fonts,
            images,
            config,
        }
    }

    /// The root region of `document`.
    pub fn new(document: &Document) -> (builder: ElementBuilder)
        ensures
            builder@ == Self::root(
                document.style,
                document.fonts.len(),
                document.images.len(),
                document.config,
            ),
            builder@.wf(),
    {
        let style = document.style;
        let origin = Point { x: style.padding.left, y: style.page_top() };
        let mut pages: Vec<Vec<Instruction>> = Vec::new();
        pages.push(Vec::new());
        let builder = ElementBuilder {
            style,
            origin,
            cursor: origin,
            remaining_width: style.inner_width(),
            starting_page: 0,
            pages,
            added_padding_bottom: Length::zero(),
            errors: Vec::new(),
            fonts: document.fonts.len(),
            images: document.images.len(),
            config: document.config,
        };
        assert(builder@.pages =~~= seq![Seq::empty()]);
        assert(builder@.errors =~~= Seq::empty());
        builder
    }

    /// Adds `instruction` at the end of the last page.
    pub fn emit(&mut self, instruction: Instruction)
        requires
            old(self)@.wf(),
        ensures
            final(self)@ == old(self)@.emitted(instruction@),
            old(self)@.grows_into(final(self)@),
    {
        let last = self.pages.len() - 1;
        let page = &mut self.pages[last];
        page.push(instruction);
        assert(self@.pages =~~= old(self)@.emitted(instruction@).pages);
    }

    /// Records a warning.
    pub fn warn(&mut self, message: String)
        ensures
            final(self)@ == old(self)@.warned(message@),
            old(self)@.grows_into(final(self)@),
    {
        self.errors.push(message);
        assert(self@.errors =~~= old(self)@.errors.push(message@));
    }

    /// Advances the cursor on the y axis, onto a new page where the
    /// current one has no room for `dy`. Says whether it broke the page.
    pub fn advance_cursor(&mut self, dy: Length) -> (broke: bool)
        ensures
            final(self)@ == old(self)@.advanced(dy),
            broke == old(self)@.breaks_on(dy),
            old(self)@.grows_into(final(self)@),
    {
        let remaining_height = self.remaining_height_from_cursor();
        if remaining_height.less_than(dy) {
            self.next_page();
            let rest = dy.minus(remaining_height);
            self.cursor.y = self.cursor.y.minus(rest);
            true
        } else {
            self.cursor.y = self.cursor.y.minus(dy);
            false
        }
    }

    /// Sets the cursor y position.
    pub fn update_cursor(&mut self, y: Length)
        ensures
            final(self)@ == old(self)@.with_cursor(Point { x: old(self).cursor.x, y }),
            old(self)@.grows_into(final(self)@),
    {
        self.cursor.y = y;
    }

    /// Sets the cursor x back to the origin.
    pub fn reset_cursor_x(&mut self)
        ensures
            final(self)@ == old(self)@.at_left_edge(),
            old(self)@.grows_into(final(self)@),
    {
        self.cursor.x = self.origin.x;
    }

    /// The height left below the cursor on the current page.
    pub fn remaining_height_from_cursor(&self) -> (r: Length)
        ensures
            r == self@.remaining_height(),
    {
        self.cursor.y.minus(self.style.padding.bottom).minus(self.added_padding_bottom)
    }

    /// The width left to the right of the cursor.
    pub fn remaining_width_from_cursor(&self) -> (r: Length)
        ensures
            r == self@.remaining_width_from_cursor(),
    {
        let x_offset = self.cursor.x.minus(self.origin.x);
        self.remaining_width.minus(x_offset)
    }

    /// Starts a new page: the cursor goes to the left edge of the region
    /// and the top margin; the width stays as it is.
    pub fn next_page(&mut self)
        ensures
            final(self)@ == old(self)@.next_page(),
            old(self)@.grows_into(final(self)@),
    {
        self.cursor = Point { x: self.origin.x, y: self.style.page_top() };
        self.pages.push(Vec::new());
        assert(self@.pages =~~= old(self)@.pages.push(Seq::empty()));
    }
}

impl ElementBuilder {
    /// Takes over what `other`, a region that was split off this one, has
    /// put on its pages: page by page from the page it started on, with
    /// new pages for what goes beyond this region's last page. The
    /// warnings of `other` follow this region's own.
    pub fn merge(&mut self, other: ElementBuilder)
        requires
            other.starting_page <= old(self).pages.len(),
        ensures
            final(self)@ == old(self)@.merged(other@),
            old(self)@.grows_into(final(self)@),
    {
        let ghost parent = self@;
        let ghost child = other@;
        let ElementBuilder { pages: mut child_pages, errors: mut child_errors, starting_page, .. } =
            other;
        let count = child_pages.len();
        let mut i: usize = 0;
        assert(self@.pages =~~= merged_pages(parent.pages, child.pages.take(0), starting_page as int));
        while i < count
            invariant
                i <= count,
                count == child_pages.len(),
                count == child.pages.len(),
                starting_page <= parent.pages.len(),
                forall|j: int| i <= j < count ==> views(#[trigger] child_pages@[j]@) == child.pages[j],
                self@ == (BuilderModel {
                    pages: merged_pages(parent.pages, child.pages.take(i as int), starting_page as int),
                    ..parent
                }),
            decreases count - i,
        {
            let ghost before = self.pages@;
            assert(self@.pages.len() == self.pages.len());
            let target = starting_page + i;
            if target < self.pages.len() {
                let page = &mut self.pages[target];
                let source = &mut child_pages[i];
                page.append(source);
            } else {
                let mut fresh: Vec<Instruction> = Vec::new();
                let source = &mut child_pages[i];
                fresh.append(source);
                self.pages.push(fresh);
            }
            proof {
                let prev = merged_pages(parent.pages, child.pages.take(i as int), starting_page as int);
                let goal = merged_pages(parent.pages, child.pages.take(i + 1), starting_page as int);
                assert forall|k: int| 0 <= k < goal.len() implies self@.pages[k] == goal[k] by {
                    if k == target {
                        if target < before.len() {
                            assert(prev[k] == parent.pages[k]);
                        }
                    } else {
                        assert(prev[k] == pages_model(before)[k]);
                        if starting_page <= k < starting_page + i {
                            assert(child.pages.take(i + 1)[k - starting_page] == child.pages.take(
                                i as int,
                            )[k - starting_page]);
                        }
                    }
                }
                assert(self@.pages =~= goal);
            }
            i += 1;
        }
        assert(child.pages.take(count as int) =~= child.pages);
        self.errors.append(&mut child_errors);
        assert(self@.errors =~~= parent.errors + child.errors);
    }
}

impl ElementBuilder {
    /// Adds `instruction` at the end of page `page`.
    fn emit_on(&mut self, page: usize, instruction: Instruction)
        requires
            page < old(self)@.pages.len(),
        ensures
            final(self)@ == old(self)@.with_more_on(page as int, seq![instruction@]),
            old(self)@.grows_into(final(self)@),
    {
        let target = &mut self.pages[page];
        target.push(instruction);
        assert(self@.pages =~~= old(self)@.with_more_on(page as int, seq![instruction@]).pages);
    }

    /// Splits the width that is left from the cursor into two regions side
    /// by side, both starting on the current page.
    pub fn generate_column_builder(&self, width: ColumnWidth) -> (columns: (
        ElementBuilder,
        ElementBuilder,
    ))
        requires
            self@.wf(),
        ensures
            columns.0@ == self@.left_column(width),
            columns.1@ == self@.right_column(width),
            columns.0@.wf(),
            columns.1@.wf(),
    {
        let left_width = match width {
            ColumnWidth::Fixed(w) => w,
            ColumnWidth::Percent(parts, of) => share(self.remaining_width_from_cursor(), parts, of),
            ColumnWidth::Auto { content, min_right } => auto_left_width(
                content,
                self.remaining_width_from_cursor(),
                min_right,
            ),
        };
        let right_width = self.remaining_width_from_cursor().minus(left_width);
        let right_origin = Point { x: self.cursor.x.plus(left_width), y: self.cursor.y };
        let starting_page = self.pages.len() - 1;
        let left = self.generate_region(self.cursor, left_width, starting_page, Length::zero());
        let right = self.generate_region(right_origin, right_width, starting_page, Length::zero());
        (left, right)
    }

    /// A fresh region inside this one.
    pub fn generate_region(
        &self,
        origin: Point,
        width: Length,
        starting_page: usize,
        added_padding_bottom: Length,
    ) -> (child: ElementBuilder)
        ensures
            child@ == self@.region(origin, width, starting_page, added_padding_bottom),
            child@.wf(),
    {
        let mut pages: Vec<Vec<Instruction>> = Vec::new();
        pages.push(Vec::new());
        let child = ElementBuilder {
            style: self.style,
            origin,
            cursor: origin,
            remaining_width: width,
            starting_page,
            pages,
            added_padding_bottom,
            errors: Vec::new(),
            fonts: self.fonts,
            images: self.images,
            config: self.config,
        };
        assert(child@.pages =~~= seq![Seq::empty()]);
        assert(child@.errors =~~= Seq::empty());
        child
    }

    /// The region of a group: this region narrowed by `padding`.
    ///
    /// With `try_same_page` set to the height of the group, the group is
    /// kept on one page where it can be: if it fits on a whole page but not
    /// into what is left of the current one, its region starts at the top of
    /// the page after this region's last.
    pub fn generate_group_builder(&self, padding: &Padding, try_same_page: Option<Length>) -> (child:
        ElementBuilder)
        requires
            self@.wf(),
        ensures
            child@ == self@.group_region(*padding, try_same_page),
            child@.wf(),
    {
        let width = self.remaining_width.minus(padding.left.plus(padding.right));
        let new_page = match try_same_page {
            Some(height) => height.at_most(self.style.inner_height())
                && self.remaining_height_from_cursor().less_than(height),
            None => false,
        };
        if new_page {
            let origin = Point {
                x: self.origin.x.plus(padding.left),
                y: self.style.page_top().minus(padding.top),
            };
            self.generate_region(origin, width, self.pages.len(), padding.bottom)
        } else {
            let origin = Point {
                x: self.cursor.x.plus(padding.left),
                y: self.cursor.y.minus(padding.top),
            };
            self.generate_region(origin, width, self.pages.len() - 1, padding.bottom)
        }
    }

    /// Frames what this region holds, at a distance of `padding`, however
    /// many pages it runs over.
    pub fn draw_outline(&mut self, padding: &Padding, outline: &LineStyle)
        requires
            old(self)@.wf(),
        ensures
            final(self)@ == old(self)@.outlined(*padding, *outline),
            old(self)@.grows_into(final(self)@),
    {
        let ghost before = self@;
        let width = self.remaining_width.plus(padding.left).plus(padding.right);
        let left_above = self.origin.x.minus(padding.left);
        let right_above = left_above.plus(width);
        let left_below = self.cursor.x.minus(padding.left);
        let right_below = left_below.plus(width);
        let top = self.origin.y.plus(padding.top);
        let bottom = self.cursor.y.minus(padding.bottom);
        let page_top = self.style.page_top();
        let page_bottom = self.style.padding.bottom;
        let count = self.pages.len();
        let mut page: usize = 0;
        assert(self@.pages =~~= Seq::new(
            before.pages.len(),
            |p: int|
                if p < 0 {
                    before.pages[p] + before.outline_on(*padding, *outline, p)
                } else {
                    before.pages[p]
                },
        ));
        while page < count
            invariant
                page <= count,
                count == before.pages.len(),
                count >= 1,
                width == before.remaining_width.spec_plus(padding.left).spec_plus(padding.right),
                left_above == before.origin.x.spec_minus(padding.left),
                right_above == left_above.spec_plus(width),
                left_below == before.cursor.x.spec_minus(padding.left),
                right_below == left_below.spec_plus(width),
                top == before.origin.y.spec_plus(padding.top),
                bottom == before.cursor.y.spec_minus(padding.bottom),
                page_top == before.style.spec_page_top(),
                page_bottom == before.style.padding.bottom,
                self@ == (BuilderModel {
                    pages: Seq::new(
                        before.pages.len(),
                        |p: int|
                            if p < page {
                                before.pages[p] + before.outline_on(*padding, *outline, p)
                            } else {
                                before.pages[p]
                            },
                    ),
                    ..before
                }),
            decreases count - page,
        {
            let ghost lines = before.outline_on(*padding, *outline, page as int);
            if count == 1 || page == 0 {
                self.emit_on(
                    page,
                    Instruction::Line {
                        from: Point { x: left_above, y: top },
                        to: Point { x: right_above, y: top },
                        style: *outline,
                    },
                );
            }
            if count == 1 || (page > 0 && page == count - 1) {
                self.emit_on(
                    page,
                    Instruction::Line {
                        from: Point { x: left_below, y: bottom },
                        to: Point { x: right_below, y: bottom },
                        style: *outline,
                    },
                );
            }
            let from_y = if page == 0 {
                top
            } else {
                page_top
            };
            let to_y = if page == count - 1 {
                bottom
            } else {
                page_bottom
            };
            self.emit_on(
                page,
                Instruction::Line {
                    from: Point { x: left_above, y: from_y },
                    to: Point { x: left_below, y: to_y },
                    style: *outline,
                },
            );
            self.emit_on(
                page,
                Instruction::Line {
                    from: Point { x: right_above, y: from_y },
                    to: Point { x: right_below, y: to_y },
                    style: *outline,
                },
            );
            proof {
                assert(self@.pages =~~= Seq::new(
                    before.pages.len(),
                    |p: int|
                        if p < page + 1 {
                            before.pages[p] + before.outline_on(*padding, *outline, p)
                        } else {
                            before.pages[p]
                        },
                ));
            }
            page += 1;
        }
        assert(self@.pages =~~= before.outlined(*padding, *outline).pages);
    }

    /// Strokes a square of side `size` at the cursor, on a new page where
    /// the current one has no room for it, and moves the cursor below it.
    pub fn draw_rect(&mut self, size: Length)
        requires
            old(self)@.wf(),
        ensures
            final(self)@ == old(self)@.with_square(size),
            old(self)@.grows_into(final(self)@),
    {
        if self.remaining_height_from_cursor().less_than(size) {
            self.next_page();
        }
        let square = Instruction::Rect {
            origin: self.cursor,
            width: size,
            height: size,
            mode: PaintMode::Stroke,
            color: Rgb::new(0, 0, 0),
        };
        self.advance_cursor(size);
        self.emit(square);
    }

    /// Draws a horizontal rule across the width that is left, inset by the
    /// left and right of `padding`, with the top and bottom of `padding`
    /// above and below it.
    pub fn draw_line(&mut self, padding: &Padding, outline: &LineStyle)
        requires
            old(self)@.wf(),
        ensures
            final(self)@ == old(self)@.with_rule(*padding, *outline),
            old(self)@.grows_into(final(self)@),
    {
        self.advance_cursor(padding.top);
        let width = self.remaining_width_from_cursor();
        let rule = Instruction::Line {
            from: Point { x: self.cursor.x.plus(padding.left), y: self.cursor.y },
            to: Point { x: self.cursor.x.plus(width).minus(padding.right), y: self.cursor.y },
            style: *outline,
        };
        self.emit(rule);
        self.advance_cursor(outline.thickness.plus(padding.bottom));
    }
}

impl BuilderModel {
    /// The shaping that `backend` gives `text` in `font` against the width
    /// that is left from the cursor.
    pub open spec fn shaped_here<B: LayoutBackend>(
        self,
        backend: &B,
        text: Seq<char>,
        font: Font,
    ) -> ShapedTextModel {
        backend.shaped(text, font, Some(self.remaining_width_from_cursor()))
    }
}

impl ElementBuilder {
    /// The width and the height that `text` takes when it is shaped in
    /// `font` against the width that is left from the cursor: the width that
    /// the backend gives it, and one line height for each of its lines.
    pub fn measure_text<B: LayoutBackend>(&self, text: &str, font: &Font, backend: &B) -> (size: (
        Length,
        Length,
    ))
        requires
            backend.knows(font.font_id),
        ensures
            size.0 == self@.shaped_here(backend, text@, *font).width,
            size.1 == ShapedText::spec_height(
                self@.shaped_here(backend, text@, *font).lines.len(),
                *font,
            ),
    {
        let shaped = shape_text(backend, font, text, Some(self.remaining_width_from_cursor()));
        assert(shaped@.lines.len() == shaped.lines.len());
        (shaped.width, shaped.height(font))
    }

    /// Shapes `paragraph` against the width that is left from the cursor
    /// and places its lines, breaking the page wherever the lines that are
    /// left do not fit.
    pub fn push_paragraph<B: LayoutBackend>(&mut self, paragraph: &str, font: &Font, backend: &B)
        requires
            backend.knows(font.font_id),
            old(self)@.wf(),
        ensures
            final(self)@ == old(self)@.with_text(
                old(self)@.shaped_here(backend, paragraph@, *font).lines,
                *font,
            ),
            old(self)@.grows_into(final(self)@),
    {
        let shaped = shape_text(backend, font, paragraph, Some(self.remaining_width_from_cursor()));
        self.push_shaped_text(shaped, font);
    }

    /// Places the lines of `text`, set in `font`, from the cursor on: those
    /// that fit go onto the current page, the others onto new pages.
    pub fn push_shaped_text(&mut self, text: ShapedText, font: &Font)
        requires
            old(self)@.wf(),
        ensures
            final(self)@ == old(self)@.with_text(text@.lines, *font),
            old(self)@.grows_into(final(self)@),
    {
        let ShapedText { lines, .. } = text;
        self.push_lines(lines, font);
    }

    fn push_lines(&mut self, lines: Vec<ShapedLine>, font: &Font)
        requires
            old(self)@.wf(),
        ensures
            final(self)@ == old(self)@.with_text(views(lines@), *font),
            old(self)@.grows_into(final(self)@),
        decreases lines.len(), (if old(self).cursor.y@ >= old(self).style.spec_page_top()@ {
            0int
        } else {
            1int
        }),
    {
        let ghost all = views(lines@);
        let mut lines = lines;
        let count = lines.len();
        let line_height = font.line_height();
        let fit = if line_height.at_most(Length::zero()) {
            count
        } else {
            let whole = self.remaining_height_from_cursor().whole(line_height);
            if whole >= count {
                count
            } else if whole == 0 && self.style.page_top().at_most(self.cursor.y) && count > 0 {
                1
            } else {
                whole
            }
        };
        let rest = lines.split_off(fit);
        assert(views(lines@) =~= all.take(fit as int));
        assert(views(rest@) =~= all.skip(fit as int));
        if fit > 0 {
            let block = Instruction::TextBlock { pos: self.cursor, font: *font, lines };
            self.emit(block);
            self.cursor.y = self.cursor.y.minus(line_height.times(fit));
        }
        if fit < count {
            self.next_page();
            self.push_lines(rest, font);
        }
    }
}

} // verus!
