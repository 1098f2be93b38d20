use vstd::prelude::*;

use crate::generate::text_gen::LayoutConfig;
use crate::generate::document::DocumentStyle;
use crate::generate::element::element_builder::ColumnWidth;
use crate::generate::font::Font;
use crate::generate::instruction::instruction_count;
use crate::generate::instruction::InstructionModel;
use crate::generate::instruction::PaintMode;
use crate::generate::outline::LineStyle;
use crate::generate::outline::Rgb;
use crate::generate::padding::Padding;
use crate::generate::text_gen::WordModel;
use crate::generate::units::Length;
use crate::generate::units::Point;

verus! {

/// The state of one layout region, as contracts speak of it: where it
/// writes next, how much room it has, and what it has put on its pages.
pub struct BuilderModel {
    pub style: DocumentStyle,
    pub origin: Point,
    pub cursor: Point,
    pub remaining_width: Length,
    pub starting_page: usize,
    pub pages: Seq<Seq<InstructionModel>>,
    pub added_padding_bottom: Length,
    pub errors: Seq<Seq<char>>,
    pub fonts: usize,
    pub images: usize,
    pub config: LayoutConfig,
}

impl BuilderModel {
    /// A region always has a page to write on.
    pub open spec fn wf(self) -> bool {
        self.pages.len() >= 1
    }

    /// The height left between the cursor and the bottom of the region.
    pub open spec fn remaining_height(self) -> Length {
        self.cursor.y.spec_minus(self.style.padding.bottom).spec_minus(self.added_padding_bottom)
    }

    /// The width left between the cursor and the right edge of the region.
    pub open spec fn remaining_width_from_cursor(self) -> Length {
        self.remaining_width.spec_minus(self.cursor.x.spec_minus(self.origin.x))
    }

    /// The region with its cursor at `cursor`.
    pub open spec fn with_cursor(self, cursor: Point) -> BuilderModel {
        BuilderModel { cursor, ..self }
    }

    /// The region with its cursor lowered by `dy`.
    pub open spec fn lowered(self, dy: Length) -> BuilderModel {
        self.with_cursor(Point { x: self.cursor.x, y: self.cursor.y.spec_minus(dy) })
    }

    /// The region with its cursor moved right by `dx`.
    pub open spec fn shifted(self, dx: Length) -> BuilderModel {
        self.with_cursor(Point { x: self.cursor.x.spec_plus(dx), y: self.cursor.y })
    }

    /// The region with its cursor back at its left edge.
    pub open spec fn at_left_edge(self) -> BuilderModel {
        self.with_cursor(Point { x: self.origin.x, y: self.cursor.y })
    }

    /// The region after a page break: one more page, empty, and the cursor
    /// at the left edge of the region and the top margin of the page.
    pub open spec fn next_page(self) -> BuilderModel {
        BuilderModel {
            cursor: Point { x: self.origin.x, y: self.style.spec_page_top() },
            pages: self.pages.push(Seq::empty()),
            ..self
        }
    }

    /// Whether moving down by `dy` takes the cursor past the bottom of the
    /// region.
    pub open spec fn breaks_on(self, dy: Length) -> bool {
        dy@ > self.remaining_height()@
    }

    /// The region after moving down by `dy`: on the same page where that
    /// fits, else on a fresh page, lowered by what did not fit.
    pub open spec fn advanced(self, dy: Length) -> BuilderModel {
        if self.breaks_on(dy) {
            self.next_page().lowered(dy.spec_minus(self.remaining_height()))
        } else {
            self.lowered(dy)
        }
    }

    /// The region with `instructions` added at the end of page `page`.
    pub open spec fn with_more_on(
        self,
        page: int,
        instructions: Seq<InstructionModel>,
    ) -> BuilderModel {
        BuilderModel { pages: self.pages.update(page, self.pages[page] + instructions), ..self }
    }

    /// The region with `instruction` added at the end of its last page.
    pub open spec fn emitted(self, instruction: InstructionModel) -> BuilderModel {
        self.with_more_on(self.pages.len() - 1, seq![instruction])
    }

    /// The region with one more warning.
    pub open spec fn warned(self, message: Seq<char>) -> BuilderModel {
        BuilderModel { errors: self.errors.push(message), ..self }
    }
}

/// `parts` of `of` equal parts of `width`, rounded towards zero; nothing
/// where there are no parts at all.
pub open spec fn spec_share(width: Length, parts: u32, of: u32) -> Length {
    if of == 0 {
        Length { units: 0 }
    } else {
        width.spec_scale(parts as int, of as int)
    }
}

/// Whether `after` begins with all of `before`, in order.
pub open spec fn continues<T>(before: Seq<T>, after: Seq<T>) -> bool {
    before.len() <= after.len() && forall|k: int|
        0 <= k < before.len() ==> #[trigger] after[k] == before[k]
}

impl BuilderModel {
    /// Whether `later` can have come from this region by laying out more:
    /// the region itself is the same, it still has every page it had, each
    /// with the instructions it had at its beginning, and every warning.
    /// Only the cursor may stand anywhere.
    pub open spec fn grows_into(self, later: BuilderModel) -> bool {
        &&& later.style == self.style
        &&& later.origin == self.origin
        &&& later.remaining_width == self.remaining_width
        &&& later.starting_page == self.starting_page
        &&& later.added_padding_bottom == self.added_padding_bottom
        &&& later.fonts == self.fonts
        &&& later.images == self.images
        &&& later.config == self.config
        &&& self.pages.len() <= later.pages.len()
        &&& forall|page: int|
            0 <= page < self.pages.len() ==> continues(self.pages[page], #[trigger] later.pages[page])
        &&& continues(self.errors, later.errors)
    }
}

/// Laying out more, and then more again, is laying out more.
pub proof fn lemma_grows_transitive(first: BuilderModel, second: BuilderModel, third: BuilderModel)
    requires
        first.grows_into(second),
        second.grows_into(third),
    ensures
        first.grows_into(third),
{
}

/// Moving the cursor down by a length that is not negative never raises
/// it on its page: either the page has room and the cursor goes down on it,
/// or the region gets exactly one more page and the cursor starts on that,
/// at the left edge.
pub proof fn lemma_advance_moves_down(region: BuilderModel, dy: Length)
    requires
        dy@ >= 0,
    ensures
        !region.breaks_on(dy) ==> {
            &&& region.advanced(dy).pages == region.pages
            &&& region.advanced(dy).cursor.x == region.cursor.x
            &&& region.advanced(dy).cursor.y@ <= region.cursor.y@
        },
        region.breaks_on(dy) ==> {
            &&& region.advanced(dy).pages == region.pages.push(Seq::empty())
            &&& region.advanced(dy).cursor.x == region.origin.x
            &&& region.advanced(dy).cursor.y@ <= region.style.spec_page_top()@
        },
{
}

/// The pages of a parent after those of a child that started at the
/// parent's page `start` were merged in: each child page goes behind the
/// parent page it lies on, and child pages beyond the parent's last become
/// new pages.
pub open spec fn merged_pages(
    parent: Seq<Seq<InstructionModel>>,
    child: Seq<Seq<InstructionModel>>,
    start: int,
) -> Seq<Seq<InstructionModel>> {
    Seq::new(
        if parent.len() >= start + child.len() {
            parent.len()
        } else {
            (start + child.len()) as nat
        },
        |i: int|
            if i < parent.len() {
                if start <= i < start + child.len() {
                    parent[i] + child[i - start]
                } else {
                    parent[i]
                }
            } else {
                child[i - start]
            },
    )
}

impl BuilderModel {
    /// The region after the pages and warnings of `child` were merged in.
    pub open spec fn merged(self, child: BuilderModel) -> BuilderModel {
        BuilderModel {
            pages: merged_pages(self.pages, child.pages, child.starting_page as int),
            errors: self.errors + child.errors,
            ..self
        }
    }
}

impl BuilderModel {
    /// The number of instructions on all pages of the region together.
    pub open spec fn count(self) -> nat {
        instruction_count(self.pages)
    }
}

/// Putting more instructions on one page adds as many to the count.
pub proof fn lemma_count_with_more(
    pages: Seq<Seq<InstructionModel>>,
    page: int,
    more: Seq<InstructionModel>,
)
    requires
        0 <= page < pages.len(),
    ensures
        instruction_count(pages.update(page, pages[page] + more)) == instruction_count(pages)
            + more.len(),
    decreases pages.len(),
{
    let after = pages.update(page, pages[page] + more);
    if page == pages.len() - 1 {
        assert(after.drop_last() =~= pages.drop_last());
    } else {
        lemma_count_with_more(pages.drop_last(), page, more);
        assert(after.drop_last() =~= pages.drop_last().update(
            page,
            pages.drop_last()[page] + more,
        ));
    }
}

/// A merge loses no instruction and makes none twice: the merged pages
/// hold as many instructions as the parent's and the child's together.
pub proof fn lemma_merge_preserves_count(
    parent: Seq<Seq<InstructionModel>>,
    child: Seq<Seq<InstructionModel>>,
    start: int,
)
    requires
        0 <= start <= parent.len(),
    ensures
        instruction_count(merged_pages(parent, child, start)) == instruction_count(parent)
            + instruction_count(child),
    decreases child.len(),
{
    if child.len() == 0 {
        assert(merged_pages(parent, child, start) =~= parent);
    } else {
        let shorter = child.drop_last();
        let before = merged_pages(parent, shorter, start);
        let after = merged_pages(parent, child, start);
        let target = start + child.len() - 1;
        lemma_merge_preserves_count(parent, shorter, start);
        if target < parent.len() {
            assert(after =~= before.update(target, before[target] + child.last()));
            lemma_count_with_more(before, target, child.last());
        } else {
            assert(after.drop_last() =~= before);
        }
    }
}

/// After a merge the parent holds as many instructions as it and the child
/// held before.
pub proof fn lemma_merged_count(parent: BuilderModel, child: BuilderModel)
    requires
        child.starting_page <= parent.pages.len(),
    ensures
        parent.merged(child).count() == parent.count() + child.count(),
{
    lemma_merge_preserves_count(parent.pages, child.pages, child.starting_page as int);
}

/// A merge keeps every page of the parent where it is, with the parent's
/// instructions first and in order, and every page of the child at the
/// end of the page it lies on; the number of pages does not fall.
pub proof fn lemma_merge_keeps_pages(
    parent: Seq<Seq<InstructionModel>>,
    child: Seq<Seq<InstructionModel>>,
    start: int,
)
    requires
        0 <= start <= parent.len(),
    ensures
        merged_pages(parent, child, start).len() >= parent.len(),
        merged_pages(parent, child, start).len() >= start + child.len(),
        forall|i: int|
            0 <= i < parent.len() ==> parent[i].is_prefix_of(
                #[trigger] merged_pages(parent, child, start)[i],
            ),
        forall|j: int|
            0 <= j < child.len() ==> child[j].is_suffix_of(
                #[trigger] merged_pages(parent, child, start)[start + j],
            ),
{
}

/// The width of a column that is as wide as its content: `natural`, but no
/// more than leaves `min_right` of `remaining` to the column beside it, and
/// not less than nothing.
pub open spec fn spec_auto_left_width(natural: Length, remaining: Length, min_right: Length) -> Length {
    natural.spec_min(remaining.spec_minus(min_right)).spec_max(Length { units: 0 })
}

/// The line from `from` to `to` in `style`.
pub open spec fn line_between(from: Point, to: Point, style: LineStyle) -> InstructionModel {
    InstructionModel::Line { from, to, style }
}

impl BuilderModel {
    /// A fresh region inside this one: it starts at `origin`, is `width`
    /// wide and has one empty page, which lies on this region's page
    /// `starting_page`.
    pub open spec fn region(
        self,
        origin: Point,
        width: Length,
        starting_page: usize,
        added_padding_bottom: Length,
    ) -> BuilderModel {
        BuilderModel {
            style: self.style,
            origin,
            cursor: origin,
            remaining_width: width,
            starting_page,
            pages: seq![Seq::empty()],
            added_padding_bottom,
            errors: Seq::empty(),
            fonts: self.fonts,
            images: self.images,
            config: self.config,
        }
    }

    /// The width that `width` gives the left one of two columns.
    pub open spec fn left_width(self, width: ColumnWidth) -> Length {
        match width {
            ColumnWidth::Fixed(w) => w,
            ColumnWidth::Percent(parts, of) => spec_share(
                self.remaining_width_from_cursor(),
                parts,
                of,
            ),
            ColumnWidth::Auto { content, min_right } => spec_auto_left_width(
                content,
                self.remaining_width_from_cursor(),
                min_right,
            ),
        }
    }

    /// The left one of two columns split off at the cursor.
    pub open spec fn left_column(self, width: ColumnWidth) -> BuilderModel {
        self.region(
            self.cursor,
            self.left_width(width),
            (self.pages.len() - 1) as usize,
            Length { units: 0 },
        )
    }

    /// The right one of two columns split off at the cursor: it starts
    /// where the left one ends and takes the width that is left.
    pub open spec fn right_column(self, width: ColumnWidth) -> BuilderModel {
        self.region(
            Point { x: self.cursor.x.spec_plus(self.left_width(width)), y: self.cursor.y },
            self.remaining_width_from_cursor().spec_minus(self.left_width(width)),
            (self.pages.len() - 1) as usize,
            Length { units: 0 },
        )
    }

    /// Whether a group of height `keep` is moved to a fresh page: it is
    /// where it fits on a whole page, but not into what is left of this one.
    pub open spec fn group_breaks(self, keep: Option<Length>) -> bool {
        keep matches Some(height) && height@ <= self.style.spec_inner_height()@
            && self.remaining_height()@ < height@
    }

    /// The region of a group with `padding` around it.
    pub open spec fn group_region(self, padding: Padding, keep: Option<Length>) -> BuilderModel {
        if self.group_breaks(keep) {
            self.region(
                Point {
                    x: self.origin.x.spec_plus(padding.left),
                    y: self.style.spec_page_top().spec_minus(padding.top),
                },
                self.remaining_width.spec_minus(padding.left.spec_plus(padding.right)),
                self.pages.len() as usize,
                padding.bottom,
            )
        } else {
            self.region(
                Point {
                    x: self.cursor.x.spec_plus(padding.left),
                    y: self.cursor.y.spec_minus(padding.top),
                },
                self.remaining_width.spec_minus(padding.left.spec_plus(padding.right)),
                (self.pages.len() - 1) as usize,
                padding.bottom,
            )
        }
    }

    /// The lines that frame, on page `page`, what this region holds, at a
    /// distance of `padding`. On a single page the frame is closed. Where
    /// the content runs over several pages, the first page gets the top edge
    /// and both sides down to the bottom margin, the last page the bottom
    /// edge and both sides up to the top margin, and each page between them
    /// both sides from margin to margin.
    pub open spec fn outline_on(
        self,
        padding: Padding,
        outline: LineStyle,
        page: int,
    ) -> Seq<InstructionModel> {
        let width = self.remaining_width.spec_plus(padding.left).spec_plus(padding.right);
        let left_above = self.origin.x.spec_minus(padding.left);
        let right_above = left_above.spec_plus(width);
        let left_below = self.cursor.x.spec_minus(padding.left);
        let right_below = left_below.spec_plus(width);
        let top = self.origin.y.spec_plus(padding.top);
        let bottom = self.cursor.y.spec_minus(padding.bottom);
        let page_top = self.style.spec_page_top();
        let page_bottom = self.style.padding.bottom;
        let top_edge = line_between(
            Point { x: left_above, y: top },
            Point { x: right_above, y: top },
            outline,
        );
        let bottom_edge = line_between(
            Point { x: left_below, y: bottom },
            Point { x: right_below, y: bottom },
            outline,
        );
        if self.pages.len() == 1 {
            seq![
                top_edge,
                bottom_edge,
                line_between(
                    Point { x: left_above, y: top },
                    Point { x: left_below, y: bottom },
                    outline,
                ),
                line_between(
                    Point { x: right_above, y: top },
                    Point { x: right_below, y: bottom },
                    outline,
                ),
            ]
        } else if page == 0 {
            seq![
                top_edge,
                line_between(
                    Point { x: left_above, y: top },
                    Point { x: left_below, y: page_bottom },
                    outline,
                ),
                line_between(
                    Point { x: right_above, y: top },
                    Point { x: right_below, y: page_bottom },
                    outline,
                ),
            ]
        } else if page == self.pages.len() - 1 {
            seq![
                bottom_edge,
                line_between(
                    Point { x: left_above, y: page_top },
                    Point { x: left_below, y: bottom },
                    outline,
                ),
                line_between(
                    Point { x: right_above, y: page_top },
                    Point { x: right_below, y: bottom },
                    outline,
                ),
            ]
        } else {
            seq![
                line_between(
                    Point { x: left_above, y: page_top },
                    Point { x: left_below, y: page_bottom },
                    outline,
                ),
                line_between(
                    Point { x: right_above, y: page_top },
                    Point { x: right_below, y: page_bottom },
                    outline,
                ),
            ]
        }
    }

    /// The region with its frame drawn on every page.
    pub open spec fn outlined(self, padding: Padding, outline: LineStyle) -> BuilderModel {
        BuilderModel {
            pages: Seq::new(
                self.pages.len(),
                |page: int| self.pages[page] + self.outline_on(padding, outline, page),
            ),
            ..self
        }
    }

    /// The square of side `size` that `draw_rect` strokes, with its top
    /// left corner at the cursor.
    pub open spec fn square(self, size: Length) -> InstructionModel {
        InstructionModel::Rect {
            origin: self.cursor,
            width: size,
            height: size,
            mode: PaintMode::Stroke,
            color: Rgb { r: 0, g: 0, b: 0 },
        }
    }

    /// The region after a square of side `size` was drawn: on a fresh page
    /// where the current one has no room for it, and the cursor below it.
    pub open spec fn with_square(self, size: Length) -> BuilderModel {
        let start = if self.remaining_height()@ < size@ {
            self.next_page()
        } else {
            self
        };
        start.advanced(size).emitted(start.square(size))
    }

    /// The rule that `draw_line` draws once the cursor stands at its
    /// height: from the left padding behind the cursor to the right padding
    /// before the end of the width that is left.
    pub open spec fn rule(self, padding: Padding, outline: LineStyle) -> InstructionModel {
        line_between(
            Point { x: self.cursor.x.spec_plus(padding.left), y: self.cursor.y },
            Point {
                x: self.cursor.x.spec_plus(self.remaining_width_from_cursor()).spec_minus(
                    padding.right,
                ),
                y: self.cursor.y,
            },
            outline,
        )
    }

    /// The region after a horizontal rule was drawn: `padding.top` below
    /// the cursor, with the thickness of the rule and `padding.bottom`
    /// consumed below it.
    pub open spec fn with_rule(self, padding: Padding, outline: LineStyle) -> BuilderModel {
        let at_rule = self.advanced(padding.top);
        at_rule.emitted(at_rule.rule(padding, outline)).advanced(
            outline.thickness.spec_plus(padding.bottom),
        )
    }
}

impl BuilderModel {
    /// How many of `lines` lines of height `line_height` go onto the
    /// current page: as many as fit into the height that is left. Where
    /// none fits although the cursor stands at the top of a page, one line
    /// is placed all the same, so that a text always moves on.
    pub open spec fn lines_that_fit(self, line_height: Length, lines: nat) -> nat {
        if line_height@ <= 0 {
            lines
        } else {
            let fit = self.remaining_height().spec_whole(line_height);
            if fit >= lines {
                lines
            } else if fit == 0 && self.cursor.y@ >= self.style.spec_page_top()@ && lines > 0 {
                1
            } else {
                fit
            }
        }
    }

    /// The region after `lines`, set in `font`, were placed from the cursor
    /// on: the lines that fit go onto the current page as one block and
    /// lower the cursor by their height, and the others follow from the top
    /// of a new page in the same way.
    pub open spec fn with_text(self, lines: Seq<Seq<WordModel>>, font: Font) -> BuilderModel
        decreases lines.len(), (if self.cursor.y@ >= self.style.spec_page_top()@ {
            0int
        } else {
            1int
        }),
    {
        let fit = self.lines_that_fit(font.spec_line_height(), lines.len());
        let placed = if fit > 0 {
            self.emitted(
                InstructionModel::TextBlock { pos: self.cursor, font, lines: lines.take(fit as int) },
            ).lowered(font.spec_line_height().spec_times(fit))
        } else {
            self
        };
        if fit >= lines.len() {
            placed
        } else {
            placed.next_page().with_text(lines.skip(fit as int), font)
        }
    }
}

/// The lines that the text blocks of `page` hold, block after block.
pub open spec fn page_lines(page: Seq<InstructionModel>) -> Seq<Seq<WordModel>>
    decreases page.len(),
{
    if page.len() == 0 {
        Seq::empty()
    } else {
        page_lines(page.drop_last()) + match page.last() {
            InstructionModel::TextBlock { lines, .. } => lines,
            _ => Seq::empty(),
        }
    }
}

/// The lines that the text blocks of `pages` hold, page after page.
pub open spec fn text_lines(pages: Seq<Seq<InstructionModel>>) -> Seq<Seq<WordModel>>
    decreases pages.len(),
{
    if pages.len() == 0 {
        Seq::empty()
    } else {
        text_lines(pages.drop_last()) + page_lines(pages.last())
    }
}

/// Placing a text loses no line and changes none: behind the lines that
/// the region held stand the lines of the text, in order, however many
/// pages they were split over.
pub proof fn lemma_text_keeps_every_line(region: BuilderModel, lines: Seq<Seq<WordModel>>, font: Font)
    requires
        region.wf(),
    ensures
        text_lines(region.with_text(lines, font).pages) == text_lines(region.pages) + lines,
        region.with_text(lines, font).wf(),
    decreases lines.len(), (if region.cursor.y@ >= region.style.spec_page_top()@ {
        0int
    } else {
        1int
    }),
{
    let fit = region.lines_that_fit(font.spec_line_height(), lines.len());
    let block = InstructionModel::TextBlock { pos: region.cursor, font, lines: lines.take(fit as int) };
    let placed = if fit > 0 {
        region.emitted(block).lowered(font.spec_line_height().spec_times(fit))
    } else {
        region
    };
    assert(text_lines(placed.pages) == text_lines(region.pages) + lines.take(fit as int)) by {
        if fit > 0 {
            assert(placed.pages.drop_last() =~= region.pages.drop_last());
            assert(placed.pages.last().drop_last() =~= region.pages.last());
            assert(text_lines(region.pages) + lines.take(fit as int) =~= text_lines(
                region.pages.drop_last(),
            ) + (page_lines(region.pages.last()) + lines.take(fit as int)));
        }
    }
    if fit < lines.len() {
        let next = placed.next_page();
        assert(next.pages.drop_last() =~= placed.pages);
        lemma_text_keeps_every_line(next, lines.skip(fit as int), font);
    }
}

/// A text that stays on the page it starts on lowers the cursor by the
/// height of all its lines.
pub proof fn lemma_text_on_one_page(region: BuilderModel, lines: Seq<Seq<WordModel>>, font: Font)
    requires
        region.wf(),
        region.with_text(lines, font).pages.len() == region.pages.len(),
    ensures
        region.with_text(lines, font).cursor == (Point {
            x: region.cursor.x,
            y: if lines.len() > 0 {
                region.cursor.y.spec_minus(font.spec_line_height().spec_times(lines.len()))
            } else {
                region.cursor.y
            },
        }),
{
    let fit = region.lines_that_fit(font.spec_line_height(), lines.len());
    if fit < lines.len() {
        let placed = if fit > 0 {
            region.emitted(
                InstructionModel::TextBlock { pos: region.cursor, font, lines: lines.take(fit as int) },
            ).lowered(font.spec_line_height().spec_times(fit))
        } else {
            region
        };
        lemma_text_grows(placed.next_page(), lines.skip(fit as int), font);
    }
}

/// Placing a text takes no page away.
pub proof fn lemma_text_grows(region: BuilderModel, lines: Seq<Seq<WordModel>>, font: Font)
    requires
        region.wf(),
    ensures
        region.with_text(lines, font).pages.len() >= region.pages.len(),
    decreases lines.len(), (if region.cursor.y@ >= region.style.spec_page_top()@ {
        0int
    } else {
        1int
    }),
{
    let fit = region.lines_that_fit(font.spec_line_height(), lines.len());
    if fit < lines.len() {
        let placed = if fit > 0 {
            region.emitted(
                InstructionModel::TextBlock { pos: region.cursor, font, lines: lines.take(fit as int) },
            ).lowered(font.spec_line_height().spec_times(fit))
        } else {
            region
        };
        lemma_text_grows(placed.next_page(), lines.skip(fit as int), font);
    }
}

} // verus!
