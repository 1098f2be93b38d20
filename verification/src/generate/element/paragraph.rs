use vstd::prelude::*;

use crate::generate::element::builder_model::BuilderModel;
use crate::generate::element::element_builder::ElementBuilder;
use crate::generate::font::Font;
use crate::generate::text_gen::LayoutBackend;
use crate::generate::text_gen::ShapedText;
use crate::generate::text_gen::WordModel;
use crate::generate::units::Length;

verus! {

/// A text in one font that flows over as many lines and pages as it needs.
#[derive(Clone, Debug)]
pub struct Paragraph {
    pub text: String,
    pub font: Font,
}

impl Paragraph {
    /// The paragraph of `text` in `font`.
    pub fn new(text: &str, font: Font) -> (r: Paragraph)
        ensures
            r.text@ == text@,
            r.font == font,
    {
        Paragraph { text: String::from_str(text), font }
    }

    /// The same paragraph at another font size.
    pub fn with_font_size(self, font_size: Length) -> (r: Paragraph)
        ensures
            r.text == self.text,
            r.font == (Font { font_size, ..self.font }),
    {
        Paragraph { text: self.text, font: self.font.with_font_size(font_size) }
    }

    /// The name of this kind of element, as warnings give it.
    pub fn display_name(&self) -> (name: &'static str)
        ensures
            name@ == "Paragraph"@,
    {
        "Paragraph"
    }

    /// The width of the text when it is shaped against the width that is
    /// left from the cursor.
    pub fn calculate_width<B: LayoutBackend>(&self, builder: &ElementBuilder, backend: &B) -> (width:
        Length)
        requires
            backend.knows(self.font.font_id),
        ensures
            width == builder@.shaped_here(backend, self.text@, self.font).width,
    {
        builder.measure_text(self.text.as_str(), &self.font, backend).0
    }

    /// The height of the text when it is shaped against the width that is
    /// left from the cursor: one line height for each line.
    pub fn calculate_height<B: LayoutBackend>(
        &self,
        builder: &ElementBuilder,
        backend: &B,
    ) -> (height: Length)
        requires
            backend.knows(self.font.font_id),
        ensures
            height == ShapedText::spec_height(
                builder@.shaped_here(backend, self.text@, self.font).lines.len(),
                self.font,
            ),
    {
        builder.measure_text(self.text.as_str(), &self.font, backend).1
    }

    /// What laying out the paragraph makes of `region`: the lines that
    /// the backend shapes the text into, against the width that is left from
    /// the cursor, are placed from the cursor on.
    pub open spec fn laid_out<B: LayoutBackend>(&self, backend: &B, region: BuilderModel) -> BuilderModel {
        region.with_text(region.shaped_here(backend, self.text@, self.font).lines, self.font)
    }

    /// Shapes the text against the width that is left from the cursor and
    /// places its lines, over as many pages as they need.
    pub fn build<B: LayoutBackend>(&self, builder: &mut ElementBuilder, backend: &B)
        requires
            backend.knows(self.font.font_id),
            old(builder)@.wf(),
        ensures
            final(builder)@ == self.laid_out(backend, old(builder)@),
            old(builder)@.grows_into(final(builder)@),
    {
        builder.push_paragraph(self.text.as_str(), &self.font, backend);
    }
}

} // verus!
