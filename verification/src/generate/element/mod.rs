use vstd::prelude::*;

use crate::generate::element::checkbox_group::spec_row_height as checkbox_row_height;
use crate::generate::element::checkbox_group::spec_row_width;
use crate::generate::element::checkbox_group::CheckboxGroup;
use crate::generate::element::column::Column;
use crate::generate::element::cursor_offset::CursorOffset;
use crate::generate::element::custom::Custom;
use crate::generate::element::builder_model::BuilderModel;
use crate::generate::element::element_builder::ColumnWidth;
use crate::generate::element::element_builder::ElementBuilder;
use crate::generate::element::empty::Empty;
use crate::generate::element::group::Group;
use crate::generate::element::image::Image;
use crate::generate::element::image_flex::flex_height;
use crate::generate::element::image_flex::flexed;
use crate::generate::element::image_flex::ImageFlex;
use crate::generate::element::line::Line;
use crate::generate::element::paragraph::Paragraph;
use crate::generate::element::rich_text::total_height;
use crate::generate::element::rich_text::RichText;
use crate::generate::element::table::Table;
use crate::generate::font::FontHandle;
use crate::generate::instruction::InstructionModel;
use crate::generate::outline::LineStyle;
use crate::generate::text_gen::LayoutBackend;
use crate::generate::text_gen::ShapedText;
use crate::generate::units::Length;

pub mod builder_model;
pub mod checkbox_group;
pub mod column;
pub mod cursor_offset;
pub mod custom;
pub mod element_builder;
pub mod empty;
pub mod group;
pub mod image;
pub mod image_flex;
pub mod line;
pub mod paragraph;
pub mod rich_text;
pub mod table;

verus! {

/// A node of the document tree. An element only describes what is to be
/// laid out; the state of the layout is the builder's.
pub enum Element {
    Paragraph(Paragraph),
    RichText(RichText),
    Group(Group),
    Column(Column),
    Flex(ImageFlex),
    Table(Table),
    Line(Line),
    Image(Image),
    CheckboxGroup(CheckboxGroup),
    CursorOffset(CursorOffset),
    Custom(Custom),
    Empty(Empty),
}

/// Whether `font` can be used where the document has registered `fonts`
/// fonts: it is one of them, and `backend` knows it.
pub open spec fn font_registered<B: LayoutBackend>(backend: &B, font: FontHandle, fonts: nat) -> bool {
    font.index < fonts && backend.knows(font)
}

/// Whether `font` can be used where the document has registered `fonts`
/// fonts.
pub fn is_font_registered<B: LayoutBackend>(backend: &B, font: FontHandle, fonts: usize) -> (registered:
    bool)
    ensures
        registered == font_registered(backend, font, fonts as nat),
{
    font.index < fonts && backend.has_font(font)
}

/// Whether the first `count` of `elements` name registered fonts and
/// images only, where `fonts` fonts and `images` images are registered.
pub open spec fn all_registered<B: LayoutBackend>(
    backend: &B,
    elements: Seq<Element>,
    fonts: nat,
    images: nat,
    count: nat,
) -> bool
    decreases elements, 0int, count,
{
    if count == 0 || count > elements.len() {
        true
    } else {
        all_registered(backend, elements, fonts, images, (count - 1) as nat) && elements[count
            - 1].registered(backend, fonts, images)
    }
}

/// Whether `elements` name registered fonts and images only.
pub fn are_registered<B: LayoutBackend>(
    backend: &B,
    elements: &Vec<Element>,
    fonts: usize,
    images: usize,
) -> (registered: bool)
    ensures
        registered == all_registered(
            backend,
            elements@,
            fonts as nat,
            images as nat,
            elements@.len(),
        ),
    decreases elements, 1int,
{
    let mut i: usize = 0;
    while i < elements.len()
        invariant
            i <= elements.len(),
            all_registered(backend, elements@, fonts as nat, images as nat, i as nat),
        decreases elements.len() - i,
    {
        proof {
            vstd::std_specs::vec::axiom_vec_index_decreases(*elements, i as int);
        }
        if !elements[i].is_registered(backend, fonts, images) {
            proof {
                lemma_unregistered_stays(
                    backend,
                    elements@,
                    fonts as nat,
                    images as nat,
                    (i + 1) as nat,
                );
            }
            return false;
        }
        i += 1;
    }
    true
}

/// Whether each of `elements` can be laid out in `region` with `backend`.
pub open spec fn all_ready<B: LayoutBackend>(
    backend: &B,
    elements: Seq<Element>,
    region: BuilderModel,
) -> bool {
    all_registered(backend, elements, region.fonts as nat, region.images as nat, elements.len())
}

/// Where the first `fewer` of `elements` name something that is not
/// registered, so do all of them.
pub proof fn lemma_unregistered_stays<B: LayoutBackend>(
    backend: &B,
    elements: Seq<Element>,
    fonts: nat,
    images: nat,
    fewer: nat,
)
    requires
        fewer <= elements.len(),
        !all_registered(backend, elements, fonts, images, fewer),
    ensures
        !all_registered(backend, elements, fonts, images, elements.len()),
    decreases elements.len() - fewer,
{
    if fewer < elements.len() {
        lemma_unregistered_stays(backend, elements, fonts, images, fewer + 1);
    }
}

/// Where the first `count` of `elements` name registered fonts and images
/// only, so does each of them.
pub proof fn lemma_each_registered<B: LayoutBackend>(
    backend: &B,
    elements: Seq<Element>,
    fonts: nat,
    images: nat,
    count: nat,
    index: int,
)
    requires
        0 <= index < count <= elements.len(),
        all_registered(backend, elements, fonts, images, count),
    ensures
        elements[index].registered(backend, fonts, images),
        all_registered(backend, elements, fonts, images, index as nat),
    decreases count,
{
    if index < count - 1 {
        lemma_each_registered(backend, elements, fonts, images, (count - 1) as nat, index);
    } else if index > 0 {
        lemma_each_registered(backend, elements, fonts, images, (count - 1) as nat, index - 1);
    }
}

/// The heights that the first `count` of `elements` ask for
/// in `region`, added to `base` one after the other.
pub open spec fn heights_sum<B: LayoutBackend>(
    backend: &B,
    elements: Seq<Element>,
    region: BuilderModel,
    count: nat,
    base: Length,
) -> Length
    decreases elements, 0int, count,
{
    if count == 0 || count > elements.len() {
        base
    } else {
        heights_sum(backend, elements, region, (count - 1) as nat, base).spec_plus(
            elements[count - 1].height(backend, region),
        )
    }
}

/// What laying out the first `count` of `elements` one below the other
/// makes of `region`.
pub open spec fn laid_out_all<B: LayoutBackend>(
    backend: &B,
    elements: Seq<Element>,
    region: BuilderModel,
    count: nat,
) -> BuilderModel
    decreases elements, 1int, count,
{
    if count == 0 || count > elements.len() {
        region
    } else {
        elements[count - 1].laid_out(backend, laid_out_all(backend, elements, region, (count - 1) as nat))
    }
}

/// The warning for an element called `name` that cannot be laid out.
pub open spec fn failure_message(name: Seq<char>) -> Seq<char> {
    "failed to lay out element '"@ + name + "'"@
}

/// The warning that is recorded for an element that cannot be laid out.
pub fn layout_failure(name: &str) -> (message: String)
    ensures
        message@ == failure_message(name@),
{
    let mut message = String::from_str("failed to lay out element '");
    message.append(name);
    message.append("'");
    message
}

impl Element {
    /// The name of the element's kind.
    pub open spec fn name(&self) -> Seq<char> {
        match self {
            Element::Paragraph(_) => "Paragraph"@,
            Element::RichText(_) => "Rich Text"@,
            Element::Group(_) => "Group"@,
            Element::Column(_) => "Column"@,
            Element::Flex(_) => "Flex"@,
            Element::Table(_) => "Table"@,
            Element::Line(_) => "Line"@,
            Element::Image(_) => "Image"@,
            Element::CheckboxGroup(_) => "Checkbox Group"@,
            Element::CursorOffset(_) => "Cursor Offset"@,
            Element::Custom(_) => "Custom"@,
            Element::Empty(_) => "Empty"@,
        }
    }

    /// The width that the element asks for in `region`, as `backend`
    /// measures it: that of its shaped text for a paragraph, that of its row
    /// for checkboxes, its own for an image, none for what only moves the
    /// cursor or draws at a place of its own, and all that is left for
    /// everything else.
    pub open spec fn width<B: LayoutBackend>(&self, backend: &B, region: BuilderModel) -> Length {
        match self {
            Element::Paragraph(e) => region.shaped_here(backend, e.text@, e.font).width,
            Element::CheckboxGroup(e) => spec_row_width(
                e.labels(backend),
                e.font,
                e.space_between_checkboxes,
                e.checkboxes@.len(),
            ),
            Element::Image(e) => e.width(),
            Element::CursorOffset(_) => Length { units: 0 },
            Element::Custom(_) => Length { units: 0 },
            Element::Empty(_) => Length { units: 0 },
            _ => region.remaining_width_from_cursor(),
        }
    }

    /// The height that the element asks for in `region`, as `backend`
    /// measures it. It is a function of the element, the backend and the
    /// region: measuring again gives the same height.
    pub open spec fn height<B: LayoutBackend>(&self, backend: &B, region: BuilderModel) -> Length
        decreases self, 0int, 0int,
    {
        match self {
            Element::Paragraph(e) => ShapedText::spec_height(
                region.shaped_here(backend, e.text@, e.font).lines.len(),
                e.font,
            ),
            Element::RichText(e) => total_height(e.lines(backend, region.remaining_width)),
            Element::Group(e) => e.height(backend, region),
            Element::Column(e) => e.height(backend, region),
            Element::Flex(e) => flex_height(backend, e.children@, region, e.space_x, e.space_y),
            Element::Table(e) => e.spec_height(backend, region),
            Element::Line(e) => e.height(),
            Element::Image(e) => e.height(),
            Element::CheckboxGroup(e) => checkbox_row_height(
                e.labels(backend),
                e.font,
                e.checkboxes@.len(),
            ),
            Element::CursorOffset(e) => e.height(),
            Element::Custom(_) => Length { units: 0 },
            Element::Empty(_) => Length { units: 0 },
        }
    }

    /// What laying out the element makes of `region`, with what `backend`
    /// measures. It is a function of the element, the backend and the
    /// region: laying out again gives the same.
    pub open spec fn laid_out<B: LayoutBackend>(&self, backend: &B, region: BuilderModel) -> BuilderModel
        decreases self, 1int, 0int,
    {
        match self {
            Element::Paragraph(e) => e.laid_out(backend, region),
            Element::RichText(e) => e.laid_out(backend, region),
            Element::Group(e) => e.laid_out(backend, region),
            Element::Column(e) => e.laid_out(backend, region),
            Element::Table(e) => e.laid_out(backend, region),
            Element::CheckboxGroup(e) => e.laid_out(backend, region),
            Element::Flex(e) => flexed(backend, e.children@, region, e.space_x, e.space_y),
            Element::Line(e) => region.with_rule(
                e.outline.padding,
                LineStyle { color: e.outline.color, thickness: e.outline.thickness },
            ),
            Element::Image(e) => region.with_image_element(*e),
            Element::CursorOffset(e) => e.applied(region),
            Element::Custom(e) => region.emitted(
                InstructionModel::TextSection { pos: e.position, runs: e@.runs },
            ),
            Element::Empty(_) => region,
        }
    }

    /// Whether every font and image that the element names is
    /// registered, where `fonts` fonts and `images` images are: a font is
    /// where its index is less than their number and `backend` knows it, an
    /// image where its index is less than their number. An element that
    /// names what is not registered cannot be laid out.
    pub open spec fn registered<B: LayoutBackend>(&self, backend: &B, fonts: nat, images: nat) -> bool
        decreases self, 0int, 0int,
    {
        match self {
            Element::Paragraph(e) => font_registered(backend, e.font.font_id, fonts),
            Element::RichText(e) => forall|i: int|
                0 <= i < e.parts@.len() ==> font_registered(
                    backend,
                    (#[trigger] e.parts@[i]).1.font_id,
                    fonts,
                ),
            Element::Group(e) => all_registered(backend, e.elements@, fonts, images, e.elements@.len()),
            Element::Column(e) => e.left.registered(backend, fonts, images) && e.right.registered(
                backend,
                fonts,
                images,
            ),
            Element::Flex(e) => all_registered(backend, e.children@, fonts, images, e.children@.len()),
            Element::Table(e) => e.registered(backend, fonts),
            Element::Line(_) => true,
            Element::Image(e) => e.image.index < images,
            Element::CheckboxGroup(e) => font_registered(backend, e.font.font_id, fonts),
            Element::CursorOffset(_) => true,
            Element::Custom(e) => forall|i: int|
                0 <= i < e.ops@.len() ==> font_registered(
                    backend,
                    (#[trigger] e.ops@[i]).font.font_id,
                    fonts,
                ),
            Element::Empty(_) => true,
        }
    }

    /// Whether the element can be laid out in `region` with `backend`:
    /// every font and image that it names is registered with the document
    /// that the region belongs to, and the backend knows the fonts.
    pub open spec fn ready<B: LayoutBackend>(&self, backend: &B, region: BuilderModel) -> bool {
        self.registered(backend, region.fonts as nat, region.images as nat)
    }

    /// Whether every font and image that the element names is registered,
    /// where `fonts` fonts and `images` images are.
    pub fn is_registered<B: LayoutBackend>(&self, backend: &B, fonts: usize, images: usize) -> (registered:
        bool)
        ensures
            registered == self.registered(backend, fonts as nat, images as nat),
        decreases self, 0int,
    {
        match self {
            Element::Paragraph(e) => is_font_registered(backend, e.font.font_id, fonts),
            Element::RichText(e) => {
                let mut i: usize = 0;
                while i < e.parts.len()
                    invariant
                        i <= e.parts.len(),
                        self is RichText,
                        self->RichText_0 == *e,
                        forall|k: int|
                            0 <= k < i ==> font_registered(
                                backend,
                                (#[trigger] e.parts@[k]).1.font_id,
                                fonts as nat,
                            ),
                    decreases e.parts.len() - i,
                {
                    if !is_font_registered(backend, e.parts[i].1.font_id, fonts) {
                        assert(!font_registered(backend, e.parts@[i as int].1.font_id, fonts as nat));
                        return false;
                    }
                    i += 1;
                }
                true
            },
            Element::Group(e) => are_registered(backend, &e.elements, fonts, images),
            Element::Column(e) => e.left.is_registered(backend, fonts, images)
                && e.right.is_registered(backend, fonts, images),
            Element::Flex(e) => are_registered(backend, &e.children, fonts, images),
            Element::Table(e) => {
                let header = match &e.header {
                    Some(header) => is_font_registered(backend, header.1.font_id, fonts),
                    None => true,
                };
                is_font_registered(backend, e.font.font_id, fonts) && header
            },
            Element::Line(_) => true,
            Element::Image(e) => e.image.index < images,
            Element::CheckboxGroup(e) => is_font_registered(backend, e.font.font_id, fonts),
            Element::CursorOffset(_) => true,
            Element::Custom(e) => {
                let mut i: usize = 0;
                while i < e.ops.len()
                    invariant
                        i <= e.ops.len(),
                        self is Custom,
                        self->Custom_0 == *e,
                        forall|k: int|
                            0 <= k < i ==> font_registered(
                                backend,
                                (#[trigger] e.ops@[k]).font.font_id,
                                fonts as nat,
                            ),
                    decreases e.ops.len() - i,
                {
                    if !is_font_registered(backend, e.ops[i].font.font_id, fonts) {
                        assert(!font_registered(backend, e.ops@[i as int].font.font_id, fonts as nat));
                        return false;
                    }
                    i += 1;
                }
                true
            },
            Element::Empty(_) => true,
        }
    }

    /// The name of the element's kind, as warnings give it.
    pub fn display_name(&self) -> (name: &'static str)
        ensures
            name@ == self.name(),
    {
        match self {
            Element::Paragraph(e) => e.display_name(),
            Element::RichText(e) => e.display_name(),
            Element::Group(e) => e.display_name(),
            Element::Column(e) => e.display_name(),
            Element::Flex(e) => e.display_name(),
            Element::Table(e) => e.display_name(),
            Element::CheckboxGroup(e) => e.display_name(),
            Element::Line(e) => e.display_name(),
            Element::Image(e) => e.display_name(),
            Element::CursorOffset(e) => e.display_name(),
            Element::Custom(e) => e.display_name(),
            Element::Empty(e) => e.display_name(),
        }
    }

    /// The width that the element asks for in the region of `builder`.
    pub fn calculate_width<B: LayoutBackend>(&self, builder: &ElementBuilder, backend: &B) -> (width:
        Length)
        requires
            self.ready(backend, builder@),
            builder@.wf(),
        ensures
            width == self.width(backend, builder@),
        decreases self, 0int,
    {
        match self {
            Element::Paragraph(e) => e.calculate_width(builder, backend),
            Element::RichText(e) => e.calculate_width(builder),
            Element::Group(e) => e.calculate_width(builder),
            Element::Column(e) => e.calculate_width(builder),
            Element::Flex(e) => e.calculate_width(builder),
            Element::Table(e) => e.calculate_width(builder),
            Element::CheckboxGroup(e) => e.calculate_width(backend),
            Element::Line(e) => e.calculate_width(builder),
            Element::Image(e) => e.calculate_width(builder),
            Element::CursorOffset(e) => e.calculate_width(builder),
            Element::Custom(e) => e.calculate_width(builder),
            Element::Empty(e) => e.calculate_width(builder),
        }
    }

    /// The height that the element asks for in the region of `builder`.
    pub fn calculate_height<B: LayoutBackend>(&self, builder: &ElementBuilder, backend: &B) -> (height:
        Length)
        requires
            self.ready(backend, builder@),
            builder@.wf(),
        ensures
            height == self.height(backend, builder@),
        decreases self, 0int,
    {
        match self {
            Element::Paragraph(e) => e.calculate_height(builder, backend),
            Element::RichText(e) => e.calculate_height(builder, backend),
            Element::Group(e) => e.calculate_height(builder, backend),
            Element::Column(e) => e.calculate_height(builder, backend),
            Element::Flex(e) => e.calculate_height(builder, backend),
            Element::Table(e) => e.calculate_height(builder, backend),
            Element::CheckboxGroup(e) => e.calculate_height(backend),
            Element::Line(e) => e.calculate_height(builder),
            Element::Image(e) => e.calculate_height(builder),
            Element::CursorOffset(e) => e.calculate_height(builder),
            Element::Custom(e) => e.calculate_height(builder),
            Element::Empty(e) => e.calculate_height(builder),
        }
    }

    /// Lays the element out in the region of `builder`. Whatever the
    /// element is and whatever the backend measures, the region keeps every
    /// page and every instruction it had.
    pub fn build<B: LayoutBackend>(&self, builder: &mut ElementBuilder, backend: &B)
        requires
            self.ready(backend, old(builder)@),
            old(builder)@.wf(),
        ensures
            old(builder)@.grows_into(final(builder)@),
            final(builder)@ == self.laid_out(backend, old(builder)@),
        decreases self, 1int,
    {
        match self {
            Element::Paragraph(e) => e.build(builder, backend),
            Element::RichText(e) => e.build(builder, backend),
            Element::Group(e) => e.build(builder, backend),
            Element::Column(e) => e.build(builder, backend),
            Element::Flex(e) => e.build(builder, backend),
            Element::Table(e) => e.build(builder, backend),
            Element::CheckboxGroup(e) => e.build(builder, backend),
            Element::Line(e) => e.build(builder),
            Element::Image(e) => e.build(builder),
            Element::CursorOffset(e) => e.build(builder),
            Element::Custom(e) => e.build(builder),
            Element::Empty(e) => e.build(builder),
        }
    }
}

} // verus!
