use vstd::prelude::*;

use crate::generate::element::builder_model::lemma_grows_transitive;
use crate::generate::element::builder_model::BuilderModel;
use crate::generate::element::element_builder::ElementBuilder;
use crate::generate::element::heights_sum;
use crate::generate::element::laid_out_all;
use crate::generate::element::all_ready;
use crate::generate::element::lemma_each_registered;
use crate::generate::element::Element;
use crate::generate::outline::LineStyle;
use crate::generate::outline::TextOutline;
use crate::generate::padding::Padding;
use crate::generate::text_gen::LayoutBackend;
use crate::generate::units::Length;
use crate::generate::units::Point;

verus! {

/// Elements laid out one below the other inside a padded region, which may
/// be framed and may be kept on one page.
pub struct Group {
    pub elements: Vec<Element>,
    pub padding: Padding,
    pub outline: Option<LineStyle>,
    pub keep_together: bool,
}

impl BuilderModel {
    /// The region after a group that was laid out in `child` has ended:
    /// the pages of the group are merged in, and the cursor stands below
    /// the group and its bottom padding.
    pub open spec fn with_group(self, child: BuilderModel, padding_bottom: Length) -> BuilderModel {
        self.merged(child).with_cursor(
            Point { x: self.cursor.x, y: child.cursor.y.spec_minus(padding_bottom) },
        )
    }

    /// What the frame that a group asks for makes of its region.
    pub open spec fn framed(self, padding: Padding, outline: Option<LineStyle>) -> BuilderModel {
        match outline {
            Some(style) => self.outlined(padding, style),
            None => self,
        }
    }
}

impl ElementBuilder {
    /// Ends a group that was laid out in `child`: takes its pages over and
    /// puts the cursor below the group and its bottom padding.
    pub fn finish_group(&mut self, child: ElementBuilder, padding_bottom: Length)
        requires
            child.starting_page <= old(self)@.pages.len(),
        ensures
            final(self)@ == old(self)@.with_group(child@, padding_bottom),
            old(self)@.grows_into(final(self)@),
    {
        let y = child.cursor.y.minus(padding_bottom);
        self.merge(child);
        self.update_cursor(y);
    }
}

/// A group that is moved to a fresh page puts nothing on the pages that
/// its parent had: whatever the group holds, those pages stay as they were.
pub proof fn lemma_kept_group_spares_pages(
    parent: BuilderModel,
    padding: Padding,
    keep: Option<Length>,
    child: BuilderModel,
)
    requires
        parent.wf(),
        parent.pages.len() <= usize::MAX,
        parent.group_breaks(keep),
        parent.group_region(padding, keep).grows_into(child),
    ensures
        forall|page: int|
            0 <= page < parent.pages.len() ==> #[trigger] parent.with_group(
                child,
                padding.bottom,
            ).pages[page] == parent.pages[page],
        parent.with_group(child, padding.bottom).pages.len() == parent.pages.len()
            + child.pages.len(),
{
}

impl Group {
    /// The height that the group asks for:
    /// their heights, measured in the group's region, and the padding above
    /// and below them, added up.
    pub open spec fn height<B: LayoutBackend>(&self, backend: &B, region: BuilderModel) -> Length
        decreases self, 0int, 0int,
    {
        heights_sum(
            backend,
            self.elements@,
            region.group_region(self.padding, None),
            self.elements@.len(),
            self.padding.top.spec_plus(self.padding.bottom),
        )
    }

    /// The height that the group is kept together with, if it is.
    pub open spec fn kept_height<B: LayoutBackend>(&self, backend: &B, region: BuilderModel) -> Option<Length>
        decreases self, 0int, 1int,
    {
        if self.keep_together {
            Some(self.height(backend, region))
        } else {
            None
        }
    }

    /// What laying out the group makes of `region`: its elements one below
    /// the other in the group's region, the frame, and the pages taken back.
    pub open spec fn laid_out<B: LayoutBackend>(&self, backend: &B, region: BuilderModel) -> BuilderModel
        decreases self, 1int, 0int,
    {
        region.with_group(
            laid_out_all(
                backend,
                self.elements@,
                region.group_region(self.padding, self.kept_height(backend, region)),
                self.elements@.len(),
            ).framed(self.padding, self.outline),
            self.padding.bottom,
        )
    }

    /// A group without elements, padding or frame, that may be split over
    /// pages.
    pub fn new() -> (group: Group)
        ensures
            group.elements@.len() == 0,
            group.padding == Padding::uniform(Length { units: 0 }),
            group.outline is None,
            !group.keep_together,
    {
        Group { elements: Vec::new(), padding: Padding::none(), outline: None, keep_together: false }
    }

    /// Adds `element` below the elements that are there.
    pub fn push(&mut self, element: Element)
        ensures
            final(self).elements@ == old(self).elements@.push(element),
            final(self).padding == old(self).padding,
            final(self).outline == old(self).outline,
            final(self).keep_together == old(self).keep_together,
    {
        self.elements.push(element);
    }

    /// Frames the group with the stroke of `outline`, at the distance of
    /// its padding.
    pub fn draw_outline(&mut self, outline: TextOutline)
        ensures
            final(self).elements == old(self).elements,
            final(self).padding == outline.padding,
            final(self).outline == Some(
                LineStyle { color: outline.color, thickness: outline.thickness },
            ),
            final(self).keep_together == old(self).keep_together,
    {
        self.padding = outline.padding;
        self.outline = Some(outline.line_style());
    }

    /// Sets the padding around the group.
    pub fn set_padding(&mut self, padding: Padding)
        ensures
            *final(self) == (Group { padding, ..*old(self) }),
    {
        self.padding = padding;
    }

    /// Says whether the group moves to a fresh page rather than start on a
    /// page that has no room for all of it.
    pub fn set_keep_together(&mut self, keep_together: bool)
        ensures
            *final(self) == (Group { keep_together, ..*old(self) }),
    {
        self.keep_together = keep_together;
    }

    /// The name of this kind of element, as warnings give it.
    pub fn display_name(&self) -> (name: &'static str)
        ensures
            name@ == "Group"@,
    {
        "Group"
    }

    /// A group takes all the width that is left.
    pub fn calculate_width(&self, builder: &ElementBuilder) -> (width: Length)
        ensures
            width == builder@.remaining_width_from_cursor(),
    {
        builder.remaining_width_from_cursor()
    }

    /// The heights of the group's elements, measured in the group's region,
    /// and the padding above and below them, added up.
    pub fn calculate_height<B: LayoutBackend>(
        &self,
        builder: &ElementBuilder,
        backend: &B,
    ) -> (height: Length)
        requires
            all_ready(backend, self.elements@, builder@),
            builder@.wf(),
        ensures
            height == self.height(backend, builder@),
        decreases self, 0int,
    {
        let region = builder.generate_group_builder(&self.padding, None);
        let mut height = self.padding.top.plus(self.padding.bottom);
        let mut i: usize = 0;
        while i < self.elements.len()
            invariant
                i <= self.elements.len(),
                region@.wf(),
                region@ == builder@.group_region(self.padding, None),
                height == heights_sum(
                    backend,
                    self.elements@,
                    region@,
                    i as nat,
                    self.padding.top.spec_plus(self.padding.bottom),
                ),
                all_ready(backend, self.elements@, region@),
            decreases self.elements.len() - i,
        {
            proof {
                vstd::std_specs::vec::axiom_vec_index_decreases(self.elements, i as int);
                lemma_each_registered(
                    backend,
                    self.elements@,
                    region@.fonts as nat,
                    region@.images as nat,
                    self.elements@.len(),
                    i as int,
                );
            }
            let asked = self.elements[i].calculate_height(&region, backend);
            height = height.plus(asked);
            i += 1;
        }
        height
    }

    /// Lays the group out: its elements one below the other in a region
    /// narrowed by the padding, then the frame if one is asked for, then
    /// back into the region of `builder`.
    pub fn build<B: LayoutBackend>(&self, builder: &mut ElementBuilder, backend: &B)
        requires
            all_ready(backend, self.elements@, old(builder)@),
            old(builder)@.wf(),
        ensures
            old(builder)@.grows_into(final(builder)@),
            final(builder)@ == self.laid_out(backend, old(builder)@),
            self.keep_together && old(builder)@.group_breaks(
                Some(self.height(backend, old(builder)@)),
            ) ==> {
                &&& final(builder)@.pages.len() > old(builder)@.pages.len()
                &&& forall|page: int|
                    0 <= page < old(builder)@.pages.len() ==> #[trigger] final(builder)@.pages[page]
                        == old(builder)@.pages[page]
            },
        decreases self, 1int,
    {
        let keep = if self.keep_together {
            Some(self.calculate_height(builder, backend))
        } else {
            None
        };
        let mut child = builder.generate_group_builder(&self.padding, keep);
        let ghost region = child@;
        let mut i: usize = 0;
        while i < self.elements.len()
            invariant
                i <= self.elements.len(),
                region.wf(),
                region.grows_into(child@),
                child@ == laid_out_all(backend, self.elements@, region, i as nat),
                all_ready(backend, self.elements@, region),
            decreases self.elements.len() - i,
        {
            proof {
                vstd::std_specs::vec::axiom_vec_index_decreases(self.elements, i as int);
                lemma_each_registered(
                    backend,
                    self.elements@,
                    region.fonts as nat,
                    region.images as nat,
                    self.elements@.len(),
                    i as int,
                );
            }
            let ghost entered = child@;
            self.elements[i].build(&mut child, backend);
            proof {
                lemma_grows_transitive(region, entered, child@);
            }
            i += 1;
        }
        let ghost filled = child@;
        match self.outline {
            Some(style) => {
                child.draw_outline(&self.padding, &style);
            },
            None => {},
        }
        let ghost framed = child@;
        builder.finish_group(child, self.padding.bottom);
        proof {
            if old(builder)@.group_breaks(keep) {
                assert(old(builder)@.pages.len() == old(builder).pages.len());
                lemma_grows_transitive(region, filled, framed);
                lemma_kept_group_spares_pages(old(builder)@, self.padding, keep, framed);
            }
        }
    }
}

} // verus!
