use vstd::prelude::*;

use crate::generate::element::builder_model::lemma_grows_transitive;
use crate::generate::element::builder_model::BuilderModel;
use crate::generate::element::element_builder::ElementBuilder;
use crate::generate::element::image::Image;
use crate::generate::element::failure_message;
use crate::generate::element::layout_failure;
use crate::generate::element::all_ready;
use crate::generate::element::lemma_each_registered;
use crate::generate::element::Element;
use crate::generate::text_gen::LayoutBackend;
use crate::generate::units::Length;
use crate::generate::units::Point;

verus! {

/// Where the next item of a flex container goes.
#[derive(Clone, Copy, Debug, PartialEq, Eq, Structural)]
pub enum FlexPlacement {
    /// Nowhere: the item is wider than the whole container.
    Skip,
    /// Behind the last item, on the current line.
    SameLine,
    /// At the start of a new line.
    NextLine,
}

/// Where an item of width `width` goes in a container that is `total`
/// wide and has `remaining` left on its current line.
pub open spec fn spec_flex_placement(total: Length, remaining: Length, width: Length) -> FlexPlacement {
    if width@ > total@ {
        FlexPlacement::Skip
    } else if width@ > remaining@ {
        FlexPlacement::NextLine
    } else {
        FlexPlacement::SameLine
    }
}

/// Where an item of width `width` goes in a container that is `total`
/// wide and has `remaining` left on its current line.
pub fn flex_placement(total: Length, remaining: Length, width: Length) -> (placement: FlexPlacement)
    ensures
        placement == spec_flex_placement(total, remaining, width),
{
    if total.less_than(width) {
        FlexPlacement::Skip
    } else if remaining.less_than(width) {
        FlexPlacement::NextLine
    } else {
        FlexPlacement::SameLine
    }
}

/// The state of measuring a flex container: the width that is used on the
/// current line, the height of the lines above it, and its own height.
pub struct FlexMeasure {
    pub used: Length,
    pub above: Length,
    pub line_height: Length,
}

/// The state of measuring `elements` as a flex container in
/// `region`, after the first `count` of them.
pub open spec fn flex_measure<B: LayoutBackend>(
    backend: &B,
    elements: Seq<Element>,
    region: BuilderModel,
    space_x: Length,
    space_y: Length,
    count: nat,
) -> FlexMeasure
    decreases elements, 0int, count,
{
    if count == 0 || count > elements.len() {
        FlexMeasure {
            used: region.cursor.x.spec_minus(region.origin.x),
            above: Length { units: 0 },
            line_height: Length { units: 0 },
        }
    } else {
        let before = flex_measure(backend, elements, region, space_x, space_y, (count - 1) as nat);
        let width = elements[count - 1].width(backend, region);
        let placement = spec_flex_placement(
            region.remaining_width_from_cursor(),
            region.remaining_width.spec_minus(before.used),
            width,
        );
        if placement == FlexPlacement::Skip {
            before
        } else {
            let on_line = if placement == FlexPlacement::NextLine {
                FlexMeasure {
                    used: Length { units: 0 },
                    above: before.above.spec_plus(before.line_height.spec_plus(space_y)),
                    line_height: Length { units: 0 },
                }
            } else {
                before
            };
            FlexMeasure {
                used: on_line.used.spec_plus(width.spec_plus(space_x)),
                above: on_line.above,
                line_height: on_line.line_height.spec_max(
                    elements[count - 1].height(backend, region),
                ),
            }
        }
    }
}

/// An item that is wider than what is left of the line, though not wider
/// than the container, starts a new line: the line before it is closed,
/// with the gap below it, and the item stands alone on the new line, which
/// is as high as the item.
pub proof fn lemma_item_that_does_not_fit_starts_a_line<B: LayoutBackend>(
    backend: &B,
    elements: Seq<Element>,
    region: BuilderModel,
    space_x: Length,
    space_y: Length,
    count: nat,
)
    requires
        0 < count <= elements.len(),
        elements[count - 1].width(backend, region)@ <= region.remaining_width_from_cursor()@,
        elements[count - 1].width(backend, region)@ > region.remaining_width.spec_minus(
            flex_measure(backend, elements, region, space_x, space_y, (count - 1) as nat).used,
        )@,
    ensures
        ({
            let before = flex_measure(backend, elements, region, space_x, space_y, (count - 1) as nat);
            let after = flex_measure(backend, elements, region, space_x, space_y, count);
            &&& after.above == before.above.spec_plus(before.line_height.spec_plus(space_y))
            &&& after.used == Length::of(
                elements[count - 1].width(backend, region)@ + space_x@,
            )
            &&& after.line_height == (Length { units: 0 }).spec_max(
                elements[count - 1].height(backend, region),
            )
        }),
{
}

/// The height that `elements` take as a flex container in `region`:
/// the heights of their lines and the gaps between the lines, added up.
pub open spec fn flex_height<B: LayoutBackend>(
    backend: &B,
    elements: Seq<Element>,
    region: BuilderModel,
    space_x: Length,
    space_y: Length,
) -> Length
    decreases elements, 0int, elements.len() + 1,
{
    let end = flex_measure(backend, elements, region, space_x, space_y, elements.len());
    end.line_height.spec_plus(end.above)
}

/// The region of a flex container and the height of its current line
/// after the first `count` of `elements` were placed. Each is
/// placed as `spec_flex_placement` says, in a region of its own that is as
/// wide as the element asks; one that runs over the page takes the cursor
/// with it.
pub open spec fn flex_items<B: LayoutBackend>(
    backend: &B,
    elements: Seq<Element>,
    region: BuilderModel,
    total: Length,
    space_x: Length,
    space_y: Length,
    count: nat,
) -> (BuilderModel, Length)
    decreases elements, 1int, count,
{
    if count == 0 || count > elements.len() {
        (region, Length { units: 0 })
    } else {
        let (before, line_height) = flex_items(
            backend,
            elements,
            region,
            total,
            space_x,
            space_y,
            (count - 1) as nat,
        );
        let element = elements[count - 1];
        let width = element.width(backend, before);
        let height = element.height(backend, before);
        let placement = spec_flex_placement(total, before.remaining_width_from_cursor(), width);
        if placement == FlexPlacement::Skip {
            (before.warned(failure_message(element.name())), line_height)
        } else {
            let opened = before.before_flex_item(placement, height, line_height, space_y);
            let item = element.laid_out(backend, opened.region(
                    opened.cursor,
                    width,
                    (opened.pages.len() - 1) as usize,
                    opened.added_padding_bottom,
                ),
            );
            opened.after_flex_item(
                item,
                width,
                space_x,
                before.flex_line_height(placement, height, line_height, space_y).spec_max(height),
            )
        }
    }
}

/// Where the room for the next item of a flex container is made. An item
/// that is wider than what is left of the line, though not wider than the
/// container, is laid out at the left edge, below the line before it and the
/// gap where that does not break the page; an item that fits is laid out
/// where the cursor stands, or at the left edge of a new page where it is
/// too high for what is left of this one.
pub proof fn lemma_item_that_does_not_fit_is_laid_out_on_a_new_line<B: LayoutBackend>(
    backend: &B,
    elements: Seq<Element>,
    region: BuilderModel,
    total: Length,
    space_x: Length,
    space_y: Length,
    count: nat,
)
    requires
        region.wf(),
        0 < count <= elements.len(),
    ensures
        ({
            let (before, line_height) = flex_items(
                backend,
                elements,
                region,
                total,
                space_x,
                space_y,
                (count - 1) as nat,
            );
            let width = elements[count - 1].width(backend, before);
            let height = elements[count - 1].height(backend, before);
            let placement = spec_flex_placement(total, before.remaining_width_from_cursor(), width);
            let opened = before.before_flex_item(placement, height, line_height, space_y);
            let down = line_height.spec_plus(space_y);
            &&& placement == FlexPlacement::NextLine <==> width@ <= total@ && width@
                > before.remaining_width_from_cursor()@
            &&& placement == FlexPlacement::NextLine ==> opened.cursor.x == before.origin.x
            &&& placement == FlexPlacement::NextLine && opened.pages.len() == before.pages.len()
                ==> opened.cursor.y == before.cursor.y.spec_minus(down)
            &&& placement == FlexPlacement::SameLine && opened.pages.len() == before.pages.len()
                ==> opened.cursor == before.cursor
            &&& opened.pages.len() > before.pages.len() ==> opened.cursor.x == before.origin.x
        }),
{
}

/// What laying out `elements` as a flex container makes of
/// `region`: after the last item the cursor goes below the last line, to
/// the left edge.
pub open spec fn flexed<B: LayoutBackend>(
    backend: &B,
    elements: Seq<Element>,
    region: BuilderModel,
    space_x: Length,
    space_y: Length,
) -> BuilderModel
    decreases elements, 1int, elements.len() + 1,
{
    let (filled, line_height) = flex_items(
        backend,
        elements,
        region,
        region.remaining_width_from_cursor(),
        space_x,
        space_y,
        elements.len(),
    );
    filled.advanced(line_height).at_left_edge()
}

/// Elements placed from left to right, on as many lines as they need.
pub struct ImageFlex {
    pub children: Vec<Element>,
    pub space_x: Length,
    pub space_y: Length,
}

impl BuilderModel {
    /// The region once room was made for a flex item of the given size
    /// and placement, on a line that is `line_height` high so far: a new
    /// line where the item does not fit on the current one, and a new page
    /// where it does not fit below the cursor.
    pub open spec fn before_flex_item(
        self,
        placement: FlexPlacement,
        height: Length,
        line_height: Length,
        space_y: Length,
    ) -> BuilderModel {
        let on_line = if placement == FlexPlacement::NextLine {
            self.advanced(line_height.spec_plus(space_y)).at_left_edge()
        } else {
            self
        };
        if height@ > on_line.remaining_height()@ {
            on_line.at_left_edge().next_page()
        } else {
            on_line
        }
    }

    /// The height of the current line once room was made for a flex item,
    /// before the item itself counts.
    pub open spec fn flex_line_height(
        self,
        placement: FlexPlacement,
        height: Length,
        line_height: Length,
        space_y: Length,
    ) -> Length {
        let on_line = if placement == FlexPlacement::NextLine {
            self.advanced(line_height.spec_plus(space_y)).at_left_edge()
        } else {
            self
        };
        if placement == FlexPlacement::NextLine || height@ > on_line.remaining_height()@ {
            Length { units: 0 }
        } else {
            line_height
        }
    }
}

impl BuilderModel {
    /// The region and the height of its current line after a flex item
    /// that was laid out in `item` was taken in: the pages of the item are
    /// merged in and the cursor moves right by the width of the item and the
    /// gap. An item that ran over the page leaves the cursor at the height
    /// where it ended, on a line that is empty so far.
    pub open spec fn after_flex_item(
        self,
        item: BuilderModel,
        width: Length,
        space_x: Length,
        line_height: Length,
    ) -> (BuilderModel, Length) {
        let merged = self.merged(item);
        if item.pages.len() > 1 {
            (
                merged.with_cursor(Point { x: merged.cursor.x, y: item.cursor.y }).shifted(
                    width.spec_plus(space_x),
                ),
                Length { units: 0 },
            )
        } else {
            (merged.shifted(width.spec_plus(space_x)), line_height)
        }
    }
}

impl ElementBuilder {
    /// Takes in a flex item that was laid out in `item`, and gives the
    /// height of the current line.
    pub fn close_flex_item(
        &mut self,
        item: ElementBuilder,
        width: Length,
        space_x: Length,
        line_height: Length,
    ) -> (current: Length)
        requires
            item.starting_page <= old(self)@.pages.len(),
        ensures
            (final(self)@, current) == old(self)@.after_flex_item(
                item@,
                width,
                space_x,
                line_height,
            ),
            old(self)@.grows_into(final(self)@),
    {
        let item_pages = item.pages.len();
        let item_y = item.cursor.y;
        self.merge(item);
        let mut current = line_height;
        if item_pages > 1 {
            self.update_cursor(item_y);
            current = Length::zero();
        }
        self.cursor.x = self.cursor.x.plus(width.plus(space_x));
        current
    }

    /// Makes room for a flex item that is not skipped, and gives the
    /// height of the line it goes on, the item not yet counted.
    pub fn open_flex_item(
        &mut self,
        placement: FlexPlacement,
        height: Length,
        line_height: Length,
        space_y: Length,
    ) -> (current: Length)
        ensures
            final(self)@ == old(self)@.before_flex_item(placement, height, line_height, space_y),
            current == old(self)@.flex_line_height(placement, height, line_height, space_y),
            old(self)@.grows_into(final(self)@),
    {
        let mut current = line_height;
        if placement == FlexPlacement::NextLine {
            self.advance_cursor(line_height.plus(space_y));
            self.reset_cursor_x();
            current = Length::zero();
        }
        if self.remaining_height_from_cursor().less_than(height) {
            self.reset_cursor_x();
            self.next_page();
            current = Length::zero();
        }
        current
    }

    /// The height that `elements` take when they are placed from left to
    /// right with `space_x` between them, on lines that are `space_y` apart.
    pub fn calculate_flex_height<B: LayoutBackend>(
        &self,
        elements: &Vec<Element>,
        space_x: Length,
        space_y: Length,
        backend: &B,
    ) -> (height: Length)
        requires
            all_ready(backend, elements@, self@),
            self@.wf(),
        ensures
            height == flex_height(backend, elements@, self@, space_x, space_y),
        decreases elements, 0int,
    {
        let total = self.remaining_width_from_cursor();
        let mut used = self.cursor.x.minus(self.origin.x);
        let mut measured = Length::zero();
        let mut line_height = Length::zero();
        let mut i: usize = 0;
        while i < elements.len()
            invariant
                i <= elements.len(),
                self@.wf(),
                total == self@.remaining_width_from_cursor(),
                (FlexMeasure { used, above: measured, line_height }) == flex_measure(
                    backend,
                    elements@,
                    self@,
                    space_x,
                    space_y,
                    i as nat,
                ),
                all_ready(backend, elements@, self@),
            decreases elements.len() - i,
        {
            proof {
                vstd::std_specs::vec::axiom_vec_index_decreases(*elements, i as int);
                lemma_each_registered(
                    backend,
                    elements@,
                    self@.fonts as nat,
                    self@.images as nat,
                    elements@.len(),
                    i as int,
                );
            }
            let width = elements[i].calculate_width(self, backend);
            match flex_placement(total, self.remaining_width.minus(used), width) {
                FlexPlacement::Skip => {},
                placement => {
                    if placement == FlexPlacement::NextLine {
                        used = Length::zero();
                        measured = measured.plus(line_height.plus(space_y));
                        line_height = Length::zero();
                    }
                    used = used.plus(width.plus(space_x));
                    line_height = line_height.max(elements[i].calculate_height(self, backend));
                },
            }
            i += 1;
        }
        line_height.plus(measured)
    }

    /// Places `elements` from left to right with `space_x` between them.
    /// An element that does not fit on the current line starts a new one,
    /// `space_y` below; one for which the page has no room starts a new
    /// page; one that is wider than all the width there is is left out, with
    /// a warning. Each element is laid out in a region of its own, as wide
    /// as the element asked.
    pub fn push_flex<B: LayoutBackend>(
        &mut self,
        elements: &Vec<Element>,
        space_x: Length,
        space_y: Length,
        backend: &B,
    )
        requires
            all_ready(backend, elements@, old(self)@),
            old(self)@.wf(),
        ensures
            old(self)@.grows_into(final(self)@),
            final(self)@ == flexed(backend, elements@, old(self)@, space_x, space_y),
        decreases elements, 1int,
    {
        let total = self.remaining_width_from_cursor();
        let mut line_height = Length::zero();
        let mut i: usize = 0;
        while i < elements.len()
            invariant
                i <= elements.len(),
                old(self)@.wf(),
                old(self)@.grows_into(self@),
                total == old(self)@.remaining_width_from_cursor(),
                (self@, line_height) == flex_items(
                    backend,
                    elements@,
                    old(self)@,
                    total,
                    space_x,
                    space_y,
                    i as nat,
                ),
                all_ready(backend, elements@, old(self)@),
            decreases elements.len() - i,
        {
            proof {
                vstd::std_specs::vec::axiom_vec_index_decreases(*elements, i as int);
                lemma_each_registered(
                    backend,
                    elements@,
                    self@.fonts as nat,
                    self@.images as nat,
                    elements@.len(),
                    i as int,
                );
            }
            let element = &elements[i];
            let width = element.calculate_width(self, backend);
            let height = element.calculate_height(self, backend);
            let ghost entered = self@;
            let placement = flex_placement(total, self.remaining_width_from_cursor(), width);
            if placement == FlexPlacement::Skip {
                self.warn(layout_failure(element.display_name()));
            } else {
                let opened_height = self.open_flex_item(placement, height, line_height, space_y).max(
                    height,
                );
                let mut item = self.generate_item_region(width);
                element.build(&mut item, backend);
                let ghost opened = self@;
                line_height = self.close_flex_item(item, width, space_x, opened_height);
                proof {
                    lemma_grows_transitive(entered, opened, self@);
                }
            }
            proof {
                lemma_grows_transitive(old(self)@, entered, self@);
            }
            i += 1;
        }
        let ghost filled = self@;
        self.advance_cursor(line_height);
        self.reset_cursor_x();
        proof {
            lemma_grows_transitive(old(self)@, filled, self@);
        }
    }

    /// The region of one flex item: it starts at the cursor, on the
    /// current page, and is as wide as the item asked.
    fn generate_item_region(&self, width: Length) -> (item: ElementBuilder)
        requires
            self@.wf(),
        ensures
            item@ == self@.region(
                self.cursor,
                width,
                (self@.pages.len() - 1) as usize,
                self.added_padding_bottom,
            ),
            item@.wf(),
            item.starting_page < self@.pages.len(),
    {
        let mut item = self.generate_column_builder(
            crate::generate::element::element_builder::ColumnWidth::Fixed(width),
        ).0;
        item.added_padding_bottom = self.added_padding_bottom;
        item
    }
}

impl ImageFlex {
    /// A container without items or gaps.
    pub fn new() -> (flex: ImageFlex)
        ensures
            flex.children@.len() == 0,
            flex.space_x@ == 0,
            flex.space_y@ == 0,
    {
        ImageFlex { children: Vec::new(), space_x: Length::zero(), space_y: Length::zero() }
    }

    /// Adds `image` behind the items that are there.
    pub fn push(&mut self, image: Image)
        ensures
            final(self).children@ == old(self).children@.push(Element::Image(image)),
            final(self).space_x == old(self).space_x,
            final(self).space_y == old(self).space_y,
    {
        self.children.push(Element::Image(image));
    }

    /// Adds any element behind the items that are there.
    pub fn push_element(&mut self, element: Element)
        ensures
            final(self).children@ == old(self).children@.push(element),
            final(self).space_x == old(self).space_x,
            final(self).space_y == old(self).space_y,
    {
        self.children.push(element);
    }

    /// Sets the gaps that are kept between items and between lines.
    pub fn set_spacing(&mut self, space_x: Length, space_y: Length)
        ensures
            final(self).children == old(self).children,
            final(self).space_x == space_x,
            final(self).space_y == space_y,
    {
        self.space_x = space_x;
        self.space_y = space_y;
    }

    /// The name of this kind of element, as warnings give it.
    pub fn display_name(&self) -> (name: &'static str)
        ensures
            name@ == "Flex"@,
    {
        "Flex"
    }

    /// A flex container takes all the width that is left.
    pub fn calculate_width(&self, builder: &ElementBuilder) -> (width: Length)
        ensures
            width == builder@.remaining_width_from_cursor(),
    {
        builder.remaining_width_from_cursor()
    }

    pub fn calculate_height<B: LayoutBackend>(
        &self,
        builder: &ElementBuilder,
        backend: &B,
    ) -> (height: Length)
        requires
            all_ready(backend, self.children@, builder@),
            builder@.wf(),
        ensures
            height == flex_height(
                backend,
                self.children@,
                builder@,
                self.space_x,
                self.space_y,
            ),
        decreases self, 0int,
    {
        builder.calculate_flex_height(&self.children, self.space_x, self.space_y, backend)
    }

    pub fn build<B: LayoutBackend>(&self, builder: &mut ElementBuilder, backend: &B)
        requires
            all_ready(backend, self.children@, old(builder)@),
            old(builder)@.wf(),
        ensures
            old(builder)@.grows_into(final(builder)@),
            final(builder)@ == flexed(
                backend,
                self.children@,
                old(builder)@,
                self.space_x,
                self.space_y,
            ),
        decreases self, 1int,
    {
        builder.push_flex(&self.children, self.space_x, self.space_y, backend);
    }
}

} // verus!
