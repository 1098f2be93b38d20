use vstd::prelude::*;

use crate::generate::document::Document;
use crate::generate::document::DocumentStyle;
use crate::generate::padding::Padding;
use crate::generate::text_gen::LayoutConfig;
use crate::generate::units::Length;
use crate::generate::units::UNITS_PER_MM;

verus! {

/// A paper format.
#[derive(Clone, Copy, Debug, PartialEq, Eq, Structural)]
pub enum DocumentFormat {
    A4,
}

/// Which way round the paper lies.
#[derive(Clone, Copy, Debug, PartialEq, Eq, Structural)]
pub enum DocumentOrientation {
    Portrait,
    Landscape,
}

/// Collects what a document is made with.
pub struct DocumentBuilder {
    pub name: String,
    pub format: DocumentFormat,
    pub orientation: DocumentOrientation,
    pub padding: Padding,
    pub config: LayoutConfig,
}

impl DocumentFormat {
    /// The width and the height of the format, upright.
    pub open spec fn spec_dimensions(&self) -> (Length, Length) {
        match self {
            DocumentFormat::A4 => (
                Length::of(210 * UNITS_PER_MM),
                Length::of(297 * UNITS_PER_MM),
            ),
        }
    }

    /// The width and the height of the format, upright.
    pub fn dimensions(&self) -> (size: (Length, Length))
        ensures
            size == self.spec_dimensions(),
    {
        match self {
            DocumentFormat::A4 => (Length::from_units(7_560_000), Length::from_units(10_692_000)),
        }
    }
}

impl DocumentOrientation {
    /// `size` as it is for paper that lies this way round.
    pub open spec fn spec_dimensions(&self, size: (Length, Length)) -> (Length, Length) {
        match self {
            DocumentOrientation::Portrait => size,
            DocumentOrientation::Landscape => (size.1, size.0),
        }
    }

    /// `size` as it is for paper that lies this way round.
    pub fn dimensions(&self, size: (Length, Length)) -> (turned: (Length, Length))
        ensures
            turned == self.spec_dimensions(size),
    {
        match self {
            DocumentOrientation::Portrait => (size.0, size.1),
            DocumentOrientation::Landscape => (size.1, size.0),
        }
    }
}

impl DocumentBuilder {
    /// The padding that pages get where none is given: 2.5 mm at the
    /// sides, 5 mm above and below.
    pub open spec fn default_padding() -> Padding {
        Padding {
            top: Length { units: 180_000 },
            bottom: Length { units: 180_000 },
            left: Length { units: 90_000 },
            right: Length { units: 90_000 },
        }
    }

    /// A builder for an upright A4 document called `name`.
    pub fn new(name: &str) -> (builder: DocumentBuilder)
        ensures
            builder.name@ == name@,
            builder.format == DocumentFormat::A4,
            builder.orientation == DocumentOrientation::Portrait,
            builder.padding == Self::default_padding(),
            builder.config == LayoutConfig::usual(),
    {
        DocumentBuilder {
            name: String::from_str(name),
            format: DocumentFormat::A4,
            orientation: DocumentOrientation::Portrait,
            padding: Padding::xy(Length::from_units(90_000), Length::from_units(180_000)),
            config: LayoutConfig::default(),
        }
    }

    /// Sets the paper format.
    pub fn format(self, format: DocumentFormat) -> (builder: DocumentBuilder)
        ensures
            builder == (DocumentBuilder { format, ..self }),
    {
        let mut builder = self;
        builder.format = format;
        builder
    }

    /// Sets which way round the paper lies.
    pub fn orientation(self, orientation: DocumentOrientation) -> (builder: DocumentBuilder)
        ensures
            builder == (DocumentBuilder { orientation, ..self }),
    {
        let mut builder = self;
        builder.orientation = orientation;
        builder
    }

    /// Sets the margins of the pages.
    pub fn padding(self, padding: Padding) -> (builder: DocumentBuilder)
        ensures
            builder == (DocumentBuilder { padding, ..self }),
    {
        let mut builder = self;
        builder.padding = padding;
        builder
    }

    /// Sets the measures that elements of the document fall back on.
    pub fn config(self, config: LayoutConfig) -> (builder: DocumentBuilder)
        ensures
            builder == (DocumentBuilder { config, ..self }),
    {
        let mut builder = self;
        builder.config = config;
        builder
    }

    /// The style of the pages of the document that is built.
    pub open spec fn style(&self) -> DocumentStyle {
        let size = self.orientation.spec_dimensions(self.format.spec_dimensions());
        DocumentStyle { padding: self.padding, width: size.0, height: size.1 }
    }

    /// The document: empty, with pages of the format, turned as the
    /// orientation says, and the padding.
    pub fn build(self) -> (document: Document)
        ensures
            document.style == self.style(),
            document.config == self.config,
            document.fonts@.len() == 0,
            document.images@.len() == 0,
            document.elements@.len() == 0,
            document.header_img is None,
            document.footer_img is None,
            document.default_font is None,
    {
        let (width, height) = self.orientation.dimensions(self.format.dimensions());
        let mut document = Document::new(self.name.as_str(), width, height, self.padding);
        document.set_config(self.config);
        document
    }
}

} // verus!
