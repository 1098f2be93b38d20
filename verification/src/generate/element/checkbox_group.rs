use vstd::prelude::*;

use crate::generate::element::builder_model::lemma_grows_transitive;
use crate::generate::element::builder_model::BuilderModel;
use crate::generate::element::element_builder::ElementBuilder;
use crate::generate::font::Font;
use crate::generate::instruction::Instruction;
use crate::generate::instruction::InstructionModel;
use crate::generate::instruction::PaintMode;
use crate::generate::outline::Rgb;
use crate::generate::text_gen::shape_text;
use crate::generate::text_gen::views;
use crate::generate::text_gen::LayoutBackend;
use crate::generate::text_gen::ShapedText;
use crate::generate::text_gen::ShapedTextModel;
use crate::generate::units::Length;
use crate::generate::units::Point;

verus! {

/// The gap that is kept between two checkboxes when none is given: 7.5 pt,
/// in units.
pub const DEFAULT_CHECKBOX_SPACE: i64 = 95_250;

/// Checkboxes in a row, each followed by its label.
#[derive(Clone, Debug)]
pub struct CheckboxGroup {
    pub checkboxes: Vec<String>,
    pub space_between_checkboxes: Length,
    pub font: Font,
}

/// The width from the left edge of a checkbox to the start of its label:
/// the box, which is as large as the font, and half as much again.
pub open spec fn spec_label_offset(font: Font) -> Length {
    font.font_size.spec_scale(3, 2)
}

/// The width that a checkbox and its label take together.
pub open spec fn spec_checkbox_width(label: ShapedTextModel, font: Font) -> Length {
    spec_label_offset(font).spec_plus(label.width)
}

/// The height that a checkbox and its label take together: that of the
/// label, one line height for each of its lines.
pub open spec fn spec_checkbox_height(label: ShapedTextModel, font: Font) -> Length {
    ShapedText::spec_height(label.lines.len(), font)
}

/// The width that a checkbox and its label take together.
pub fn checkbox_width(label: &ShapedText, font: &Font) -> (width: Length)
    ensures
        width == spec_checkbox_width(label@, *font),
{
    font.font_size.scale(3, 2).plus(label.width)
}

/// The height that a checkbox and its label take together.
pub fn checkbox_height(label: &ShapedText, font: &Font) -> (height: Length)
    ensures
        height == spec_checkbox_height(label@, *font),
{
    assert(label@.lines.len() == label.lines.len());
    label.height(font)
}

/// The widths of the first `count` checkboxes with the `labels`, and the
/// gaps of `space` between them, added up.
pub open spec fn spec_row_width(
    labels: Seq<ShapedTextModel>,
    font: Font,
    space: Length,
    count: nat,
) -> Length
    decreases count,
{
    if count == 0 || count > labels.len() {
        Length { units: 0 }
    } else {
        let before = spec_row_width(labels, font, space, (count - 1) as nat).spec_plus(
            spec_checkbox_width(labels[count - 1], font),
        );
        if count < labels.len() {
            before.spec_plus(space)
        } else {
            before
        }
    }
}

/// The height of the highest of the first `count` checkboxes with the
/// `labels`.
pub open spec fn spec_row_height(labels: Seq<ShapedTextModel>, font: Font, count: nat) -> Length
    decreases count,
{
    if count == 0 || count > labels.len() {
        Length { units: 0 }
    } else {
        spec_row_height(labels, font, (count - 1) as nat).spec_max(
            spec_checkbox_height(labels[count - 1], font),
        )
    }
}

/// The widths of the checkboxes with the `labels`, and the gaps between
/// them, added up.
pub fn row_width(labels: &Vec<ShapedText>, font: &Font, space: Length) -> (width: Length)
    ensures
        width == spec_row_width(views(labels@), *font, space, labels@.len()),
{
    let mut width = Length::zero();
    let mut i: usize = 0;
    while i < labels.len()
        invariant
            i <= labels.len(),
            width == spec_row_width(views(labels@), *font, space, i as nat),
        decreases labels.len() - i,
    {
        width = width.plus(checkbox_width(&labels[i], font));
        if i + 1 < labels.len() {
            width = width.plus(space);
        }
        i += 1;
    }
    width
}

/// The height of the highest of the checkboxes with the `labels`.
pub fn row_height(labels: &Vec<ShapedText>, font: &Font) -> (height: Length)
    ensures
        height == spec_row_height(views(labels@), *font, labels@.len()),
{
    let mut height = Length::zero();
    let mut i: usize = 0;
    while i < labels.len()
        invariant
            i <= labels.len(),
            height == spec_row_height(views(labels@), *font, i as nat),
        decreases labels.len() - i,
    {
        height = height.max(checkbox_height(&labels[i], font));
        i += 1;
    }
    height
}

impl BuilderModel {
    /// The region after a checkbox with the shaped `label` was drawn at the
    /// cursor: the box, the label beside it, and the cursor behind both.
    pub open spec fn with_checkbox(self, label: ShapedTextModel, font: Font) -> BuilderModel {
        self.emitted(
            InstructionModel::Rect {
                origin: self.cursor,
                width: font.font_size,
                height: font.font_size,
                mode: PaintMode::Stroke,
                color: Rgb { r: 0, g: 0, b: 0 },
            },
        ).emitted(
            InstructionModel::TextBlock {
                pos: Point { x: self.cursor.x.spec_plus(spec_label_offset(font)), y: self.cursor.y },
                font,
                lines: label.lines,
            },
        ).shifted(spec_checkbox_width(label, font))
    }

    /// The region after the first `count` checkboxes with the `labels`
    /// were drawn side by side, `space` apart.
    pub open spec fn with_checkboxes(
        self,
        labels: Seq<ShapedTextModel>,
        font: Font,
        space: Length,
        count: nat,
    ) -> BuilderModel
        decreases count,
    {
        if count == 0 || count > labels.len() {
            self
        } else {
            let drawn = self.with_checkboxes(labels, font, space, (count - 1) as nat).with_checkbox(
                labels[count - 1],
                font,
            );
            if count < labels.len() {
                drawn.shifted(space)
            } else {
                drawn
            }
        }
    }

    /// The region after a row of checkboxes with the `labels` was drawn:
    /// the checkboxes side by side, and the cursor below the highest of
    /// them, at the left edge.
    pub open spec fn with_checkbox_row(
        self,
        labels: Seq<ShapedTextModel>,
        font: Font,
        space: Length,
    ) -> BuilderModel {
        self.with_checkboxes(labels, font, space, labels.len()).at_left_edge().advanced(
            spec_row_height(labels, font, labels.len()),
        )
    }
}

impl ElementBuilder {
    /// Draws a checkbox at the cursor with the shaped `label` beside it,
    /// and moves the cursor behind the label.
    pub fn push_checkbox(&mut self, label: &ShapedText, font: &Font)
        requires
            old(self)@.wf(),
        ensures
            final(self)@ == old(self)@.with_checkbox(label@, *font),
            old(self)@.grows_into(final(self)@),
    {
        let width = checkbox_width(label, font);
        let offset = font.font_size.scale(3, 2);
        let start = self.cursor;
        self.emit(
            Instruction::Rect {
                origin: start,
                width: font.font_size,
                height: font.font_size,
                mode: PaintMode::Stroke,
                color: Rgb::new(0, 0, 0),
            },
        );
        self.emit(
            Instruction::TextBlock {
                pos: Point { x: start.x.plus(offset), y: start.y },
                font: *font,
                lines: label.copy_lines(),
            },
        );
        self.cursor.x = self.cursor.x.plus(width);
    }

    /// Draws a row of checkboxes with the shaped `labels` from the cursor
    /// on, `space` apart, and moves the cursor below the highest of them, to
    /// the left edge.
    pub fn push_checkbox_row(&mut self, labels: &Vec<ShapedText>, font: &Font, space: Length)
        requires
            old(self)@.wf(),
        ensures
            final(self)@ == old(self)@.with_checkbox_row(views(labels@), *font, space),
            old(self)@.grows_into(final(self)@),
    {
        let mut i: usize = 0;
        while i < labels.len()
            invariant
                i <= labels.len(),
                old(self)@.wf(),
                old(self)@.grows_into(self@),
                self@ == old(self)@.with_checkboxes(views(labels@), *font, space, i as nat),
            decreases labels.len() - i,
        {
            let ghost entered = self@;
            self.push_checkbox(&labels[i], font);
            if i + 1 < labels.len() {
                self.cursor.x = self.cursor.x.plus(space);
            }
            proof {
                lemma_grows_transitive(old(self)@, entered, self@);
            }
            i += 1;
        }
        let ghost drawn = self@;
        self.reset_cursor_x();
        self.advance_cursor(row_height(labels, font));
        proof {
            lemma_grows_transitive(old(self)@, drawn, self@);
        }
    }
}

impl CheckboxGroup {
    /// A checkbox for each of the labels, set in `font`, 7.5 pt apart.
    pub fn new(checkboxes: Vec<String>, font: Font) -> (group: CheckboxGroup)
        ensures
            group.checkboxes == checkboxes,
            group.font == font,
            group.space_between_checkboxes == (Length { units: DEFAULT_CHECKBOX_SPACE }),
    {
        CheckboxGroup {
            checkboxes,
            font,
            space_between_checkboxes: Length::from_units(DEFAULT_CHECKBOX_SPACE),
        }
    }

    /// Sets the gap between two checkboxes.
    pub fn with_space_between_checkboxes(self, space: Length) -> (group: CheckboxGroup)
        ensures
            group.checkboxes == self.checkboxes,
            group.font == self.font,
            group.space_between_checkboxes == space,
    {
        CheckboxGroup { checkboxes: self.checkboxes, font: self.font, space_between_checkboxes: space }
    }

    /// The name of this kind of element, as warnings give it.
    pub fn display_name(&self) -> (name: &'static str)
        ensures
            name@ == "Checkbox Group"@,
    {
        "Checkbox Group"
    }

    /// The labels as `backend` shapes them: each against no width, so
    /// that it stands on a line of its own width.
    pub open spec fn labels<B: LayoutBackend>(&self, backend: &B) -> Seq<ShapedTextModel> {
        Seq::new(
            self.checkboxes@.len(),
            |i: int| backend.shaped(self.checkboxes@[i]@, self.font, None),
        )
    }

    /// What laying out the checkboxes makes of `region`.
    pub open spec fn laid_out<B: LayoutBackend>(&self, backend: &B, region: BuilderModel) -> BuilderModel {
        region.with_checkbox_row(self.labels(backend), self.font, self.space_between_checkboxes)
    }

    /// The labels as the backend shapes them, each on a line of its own
    /// width.
    pub fn shape_labels<B: LayoutBackend>(&self, backend: &B) -> (labels: Vec<ShapedText>)
        requires
            backend.knows(self.font.font_id),
        ensures
            views(labels@) == self.labels(backend),
    {
        let mut labels: Vec<ShapedText> = Vec::new();
        let mut i: usize = 0;
        while i < self.checkboxes.len()
            invariant
                i <= self.checkboxes.len(),
                labels.len() == i,
                views(labels@) =~= self.labels(backend).take(i as int),
                backend.knows(self.font.font_id),
            decreases self.checkboxes.len() - i,
        {
            labels.push(shape_text(backend, &self.font, self.checkboxes[i].as_str(), None));
            i += 1;
        }
        assert(self.labels(backend).take(i as int) =~= self.labels(backend));
        labels
    }

    /// The widths of the checkboxes with their labels, and the gaps between
    /// them, added up.
    pub fn calculate_width<B: LayoutBackend>(&self, backend: &B) -> (width: Length)
        requires
            backend.knows(self.font.font_id),
        ensures
            width == spec_row_width(
                self.labels(backend),
                self.font,
                self.space_between_checkboxes,
                self.checkboxes@.len(),
            ),
    {
        let labels = self.shape_labels(backend);
        let width = row_width(&labels, &self.font, self.space_between_checkboxes);
        width
    }

    /// The height of the highest checkbox or label.
    pub fn calculate_height<B: LayoutBackend>(&self, backend: &B) -> (height: Length)
        requires
            backend.knows(self.font.font_id),
        ensures
            height == spec_row_height(self.labels(backend), self.font, self.checkboxes@.len()),
    {
        let labels = self.shape_labels(backend);
        let height = row_height(&labels, &self.font);
        height
    }

    /// Draws the checkboxes in a row from the cursor on, and moves the
    /// cursor below the highest of them, to the left edge.
    pub fn build<B: LayoutBackend>(&self, builder: &mut ElementBuilder, backend: &B)
        requires
            backend.knows(self.font.font_id),
            old(builder)@.wf(),
        ensures
            final(builder)@ == self.laid_out(backend, old(builder)@),
            old(builder)@.grows_into(final(builder)@),
    {
        let labels = self.shape_labels(backend);
        builder.push_checkbox_row(&labels, &self.font, self.space_between_checkboxes);
    }
}

} // verus!
