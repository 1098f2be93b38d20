use vstd::prelude::*;

use crate::generate::element::builder_model::lemma_grows_transitive;
use crate::generate::element::builder_model::BuilderModel;
use crate::generate::element::element_builder::ElementBuilder;
use crate::generate::element::all_ready;
use crate::generate::element::all_registered;
use crate::generate::element::lemma_each_registered;
use crate::generate::element::are_registered;
use crate::generate::element::laid_out_all;
use crate::generate::element::Element;
use crate::generate::font::Font;
use crate::generate::font::FontHandle;
use crate::generate::instruction::pages_model;
use crate::generate::instruction::ImageHandle;
use crate::generate::instruction::Instruction;
use crate::generate::instruction::InstructionModel;
use crate::generate::padding::Padding;
use crate::generate::pdf::decode_image;
use crate::generate::pdf::font_rejection;
use crate::generate::pdf::image_rejection;
use crate::generate::pdf::image_size;
use crate::generate::pdf::new_pdf_document;
use crate::generate::pdf::parse_font;
use crate::generate::pdf::register_font;
use crate::generate::pdf::register_image;
use crate::generate::text_gen::views;
use crate::generate::text_gen::LayoutBackend;
use crate::generate::text_gen::LayoutConfig;
use crate::generate::units::Length;
use crate::generate::units::Point;
use crate::generate::units::UNITS_PER_PX;

verus! {

/// The size of every page and the margins kept free on it.
#[derive(Clone, Copy, Debug, PartialEq, Eq, Structural)]
pub struct DocumentStyle {
    pub padding: Padding,
    pub width: Length,
    pub height: Length,
}

impl DocumentStyle {
    /// The width between the left and the right margin.
    pub open spec fn spec_inner_width(&self) -> Length {
        self.width.spec_minus(self.padding.left).spec_minus(self.padding.right)
    }

    /// The height between the top and the bottom margin.
    pub open spec fn spec_inner_height(&self) -> Length {
        self.height.spec_minus(self.padding.top).spec_minus(self.padding.bottom)
    }

    /// The height at which content starts on a fresh page.
    pub open spec fn spec_page_top(&self) -> Length {
        self.height.spec_minus(self.padding.top)
    }

    /// The width between the left and the right margin.
    pub fn inner_width(&self) -> (r: Length)
        ensures
            r == self.spec_inner_width(),
    {
        self.width.minus(self.padding.left).minus(self.padding.right)
    }

    /// The height between the top and the bottom margin.
    pub fn inner_height(&self) -> (r: Length)
        ensures
            r == self.spec_inner_height(),
    {
        self.height.minus(self.padding.top).minus(self.padding.bottom)
    }

    /// The height at which content starts on a fresh page.
    pub fn page_top(&self) -> (r: Length)
        ensures
            r == self.spec_page_top(),
    {
        self.height.minus(self.padding.top)
    }
}

/// An image that is drawn on pages apart from the flow of the elements,
/// with its bottom left corner at `position`.
#[derive(Clone, Copy, Debug, PartialEq, Eq, Structural)]
pub struct DocumentImage {
    pub image: ImageHandle,
    pub position: Point,
    /// The room that is kept free between the image and the elements.
    pub gap_after: Length,
}

impl DocumentImage {
    /// The instruction that draws the image.
    pub open spec fn instruction(&self) -> InstructionModel {
        InstructionModel::Image { image: self.image, pos: self.position, scale: None }
    }
}

/// A document: the style of its pages, its elements from top to bottom,
/// the fonts and images that were registered for it, and the images that
/// head and foot its pages.
pub struct Document {
    /// Where the fonts and images are kept for the pages to come.
    pub pdf_document: printpdf::PdfDocument,
    /// The identifier of each registered font; a `FontHandle` is an index into
    /// this list.
    pub fonts: Vec<printpdf::FontId>,
    /// The identifier of each registered image; an `ImageHandle` holds an index
    /// into this list.
    pub images: Vec<printpdf::XObjectId>,
    pub elements: Vec<Element>,
    pub style: DocumentStyle,
    /// The measures that elements of this document fall back on.
    pub config: LayoutConfig,
    pub footer_img: Option<DocumentImage>,
    pub header_img: Option<DocumentImage>,
    pub default_font: Option<FontHandle>,
}

/// `lines` one after another, with a line break between each two.
pub open spec fn joined_lines(lines: Seq<Seq<char>>) -> Seq<char>
    decreases lines.len(),
{
    if lines.len() == 0 {
        Seq::empty()
    } else if lines.len() == 1 {
        lines[0]
    } else {
        joined_lines(lines.drop_last()) + seq!['\n'] + lines.last()
    }
}

/// Joins `lines` into one text, with a line break between each two.
pub fn join_lines(lines: &Vec<String>) -> (joined: String)
    ensures
        joined@ == joined_lines(views(lines@)),
{
    let ghost texts = views(lines@);
    let mut joined = String::new();
    let mut i: usize = 0;
    while i < lines.len()
        invariant
            i <= lines.len(),
            texts == views(lines@),
            joined@ == joined_lines(texts.take(i as int)),
        decreases lines.len() - i,
    {
        proof {
            reveal_strlit("\n");
            assert(texts.take(i + 1).drop_last() =~= texts.take(i as int));
            assert(texts.take(i + 1).last() == lines@[i as int]@);
        }
        if i > 0 {
            joined.append("\n");
        }
        joined.append(lines[i].as_str());
        i += 1;
    }
    assert(texts.take(i as int) =~= texts);
    joined
}

impl Document {
    /// A document called `name` with pages of the given size and margins,
    /// without elements, fonts or images.
    pub fn new(name: &str, width: Length, height: Length, padding: Padding) -> (document: Document)
        ensures
            document.fonts@.len() == 0,
            document.images@.len() == 0,
            document.elements@.len() == 0,
            document.style == (DocumentStyle { padding, width, height }),
            document.config == LayoutConfig::usual(),
            document.footer_img is None,
            document.header_img is None,
            document.default_font is None,
    {
        Document {
            pdf_document: new_pdf_document(name),
            fonts: Vec::new(),
            images: Vec::new(),
            elements: Vec::new(),
            style: DocumentStyle { padding, width, height },
            config: LayoutConfig::default(),
            footer_img: None,
            header_img: None,
            default_font: None,
        }
    }

    /// The style of the pages.
    pub fn style(&self) -> (style: &DocumentStyle)
        ensures
            *style == self.style,
    {
        &self.style
    }

    /// Adds `element` below the elements that are there.
    pub fn push(&mut self, element: Element)
        ensures
            *final(self) == (Document { elements: final(self).elements, ..*old(self) }),
            final(self).elements@ == old(self).elements@.push(element),
    {
        self.elements.push(element);
    }

    /// Adds a boxed element below the elements that are there.
    pub fn push_box(&mut self, element: Box<Element>)
        ensures
            *final(self) == (Document { elements: final(self).elements, ..*old(self) }),
            final(self).elements@ == old(self).elements@.push(*element),
    {
        self.elements.push(*element);
    }

    /// Whether `later` is this document with nothing changed but what was
    /// registered.
    pub open spec fn same_content(&self, later: &Document) -> bool {
        &&& later.elements == self.elements
        &&& later.style == self.style
        &&& later.config == self.config
        &&& later.footer_img == self.footer_img
        &&& later.header_img == self.header_img
    }

    /// The default font once `font` was registered: the first font that
    /// is registered stays the default.
    pub open spec fn default_with(&self, font: FontHandle) -> Option<FontHandle> {
        match self.default_font {
            Some(first) => Some(first),
            None => Some(font),
        }
    }

    /// Parses `font_data` and registers the font. Data that is no font is
    /// refused with the messages of the parser, and nothing is registered.
    pub fn add_font(&mut self, font_data: &[u8]) -> (added: Result<FontHandle, String>)
        ensures
            old(self).same_content(final(self)),
            final(self).images == old(self).images,
            match added {
                Ok(font) => {
                    &&& font.index == old(self).fonts@.len()
                    &&& final(self).fonts@.len() == old(self).fonts@.len() + 1
                    &&& final(self).fonts@.take(old(self).fonts@.len() as int) == old(self).fonts@
                    &&& final(self).default_font == old(self).default_with(font)
                },
                Err(_) => *final(self) == *old(self),
            },
            added is Ok <==> font_rejection(font_data@) is None,
            added matches Err(message) ==> font_rejection(font_data@) matches Some(messages)
                && message@ == joined_lines(messages),
    {
        let parsed = match parse_font(font_data) {
            Ok(font) => Ok(font),
            Err(messages) => Err(join_lines(&messages)),
        };
        self.install_font(parsed)
    }

    /// Registers a font that was parsed, or hands on why it was not. The
    /// new font gets the next free index, and becomes the default font where
    /// there is none yet.
    pub fn install_font(&mut self, parsed: Result<printpdf::ParsedFont, String>) -> (added: Result<
        FontHandle,
        String,
    >)
        ensures
            old(self).same_content(final(self)),
            final(self).images == old(self).images,
            match parsed {
                Ok(_) => {
                    &&& added == Ok::<FontHandle, String>(FontHandle { index: old(self).fonts.len() })
                    &&& final(self).fonts@.len() == old(self).fonts@.len() + 1
                    &&& final(self).fonts@.take(old(self).fonts@.len() as int) == old(self).fonts@
                    &&& final(self).default_font == old(self).default_with(
                        FontHandle { index: old(self).fonts.len() },
                    )
                },
                Err(message) => added == Err::<FontHandle, String>(message) && *final(self) == *old(
                    self,
                ),
            },
    {
        match parsed {
            Ok(font) => {
                let id = register_font(&mut self.pdf_document, &font);
                let added = FontHandle { index: self.fonts.len() };
                self.fonts.push(id);
                if self.default_font.is_none() {
                    self.default_font = Some(added);
                }
                Ok(added)
            },
            Err(message) => Err(message),
        }
    }

    /// Sets the measures that elements of this document fall back on.
    pub fn set_config(&mut self, config: LayoutConfig)
        ensures
            *final(self) == (Document { config, ..*old(self) }),
    {
        self.config = config;
    }

    /// The default font at the size and leading that the document falls
    /// back on.
    pub fn default_font_face(&self) -> (font: Font)
        requires
            self.default_font is Some,
        ensures
            Some(font.font_id) == self.default_font,
            font.font_size == self.config.font_size,
            font.font_height_offset == self.config.font_height_offset,
    {
        Font::new(self.get_default_font(), self.config.font_size, self.config.font_height_offset)
    }

    /// The font that elements take when they are given none. There is one
    /// as soon as a font was added.
    pub fn get_default_font(&self) -> (font: FontHandle)
        requires
            self.default_font is Some,
        ensures
            Some(font) == self.default_font,
    {
        match self.default_font {
            Some(font) => font,
            None => FontHandle { index: 0 },
        }
    }

    /// Registers a decoded image. It gets the next free index.
    pub fn add_image(&mut self, image: printpdf::RawImage) -> (added: ImageHandle)
        ensures
            old(self).same_content(final(self)),
            final(self).fonts == old(self).fonts,
            final(self).default_font == old(self).default_font,
            added.index == old(self).images@.len(),
            final(self).images@.len() == old(self).images@.len() + 1,
            final(self).images@.take(old(self).images@.len() as int) == old(self).images@,
    {
        let (width_px, height_px) = image_size(&image);
        let id = register_image(&mut self.pdf_document, &image);
        let added = ImageHandle { index: self.images.len(), width_px, height_px };
        self.images.push(id);
        added
    }

    /// Decodes `image_data` and registers the image. Data that is no image
    /// is refused with the message of the decoder, and nothing is registered.
    pub fn load_image(&mut self, image_data: &[u8]) -> (added: Result<ImageHandle, String>)
        ensures
            old(self).same_content(final(self)),
            final(self).fonts == old(self).fonts,
            final(self).default_font == old(self).default_font,
            match added {
                Ok(image) => {
                    &&& image.index == old(self).images@.len()
                    &&& final(self).images@.len() == old(self).images@.len() + 1
                    &&& final(self).images@.take(old(self).images@.len() as int) == old(
                        self,
                    ).images@
                },
                Err(_) => *final(self) == *old(self),
            },
            added is Ok <==> image_rejection(image_data@) is None,
            added matches Err(message) ==> image_rejection(image_data@) == Some(message@),
    {
        let decoded = decode_image(image_data);
        self.install_image(decoded)
    }

    /// Registers an image that was decoded, or hands on why it was not. The
    /// new image gets the next free index; the images that were registered
    /// keep theirs.
    pub fn install_image(&mut self, decoded: Result<printpdf::RawImage, String>) -> (added: Result<
        ImageHandle,
        String,
    >)
        ensures
            old(self).same_content(final(self)),
            final(self).fonts == old(self).fonts,
            final(self).default_font == old(self).default_font,
            match decoded {
                Ok(_) => {
                    &&& added matches Ok(image)
                    &&& image.index == old(self).images@.len()
                    &&& final(self).images@.len() == old(self).images@.len() + 1
                    &&& final(self).images@.take(old(self).images@.len() as int) == old(
                        self,
                    ).images@
                },
                Err(message) => added == Err::<ImageHandle, String>(message) && *final(self)
                    == *old(self),
            },
    {
        match decoded {
            Ok(image) => Ok(self.add_image(image)),
            Err(message) => Err(message),
        }
    }

    /// Where the header image stands: at the left edge, its top at the top
    /// edge of the page.
    pub open spec fn header_position(&self, image: ImageHandle) -> Point {
        Point {
            x: Length { units: 0 },
            y: self.style.height.spec_minus(Length::of(image.height_px * UNITS_PER_PX)),
        }
    }

    /// Puts the registered `image` at the top of the first page, with
    /// `gap_after` kept free below it.
    pub fn place_header(&mut self, image: ImageHandle, gap_after: Length)
        ensures
            *final(self) == (Document {
                header_img: Some(
                    DocumentImage { image, position: old(self).header_position(image), gap_after },
                ),
                ..*old(self)
            }),
    {
        let height = Length::from_px(image.height_px);
        self.header_img = Some(
            DocumentImage {
                image,
                position: Point { x: Length::zero(), y: self.style.height.minus(height) },
                gap_after,
            },
        );
    }

    /// Puts the registered `image` at the bottom of every page.
    pub fn place_footer(&mut self, image: ImageHandle)
        ensures
            *final(self) == (Document {
                footer_img: Some(
                    DocumentImage {
                        image,
                        position: Point { x: Length { units: 0 }, y: Length { units: 0 } },
                        gap_after: Length { units: 0 },
                    },
                ),
                ..*old(self)
            }),
    {
        self.footer_img = Some(
            DocumentImage {
                image,
                position: Point { x: Length::zero(), y: Length::zero() },
                gap_after: Length::zero(),
            },
        );
    }

    /// The height at which the elements start on the first page: at the
    /// top margin, or below the header image and its gap where that is
    /// lower.
    pub open spec fn spec_first_top(&self) -> Length {
        match self.header_img {
            Some(header) => self.style.spec_page_top().spec_min(
                header.position.y.spec_minus(header.gap_after),
            ),
            None => self.style.spec_page_top(),
        }
    }

    /// The height at which the elements start on the first page.
    pub fn first_top(&self) -> (top: Length)
        ensures
            top == self.spec_first_top(),
    {
        match self.header_img {
            Some(header) => self.style.page_top().min(header.position.y.minus(header.gap_after)),
            None => self.style.page_top(),
        }
    }

    /// The region in which the elements of the document are laid out:
    /// the root region, with the cursor where the elements start on the
    /// first page.
    pub open spec fn start(&self) -> BuilderModel {
        ElementBuilder::root(
            self.style,
            self.fonts.len(),
            self.images.len(),
            self.config,
        ).with_cursor(
            Point { x: self.style.padding.left, y: self.spec_first_top() },
        )
    }

    /// Decodes `image_data`, registers the image and puts it at the top of
    /// the first page, with `gap_after` kept free below it. Data that is no
    /// image is refused, and the document stays as it is.
    pub fn set_header_image(&mut self, image_data: &[u8], gap_after: Length) -> (set: Result<
        (),
        String,
    >)
        ensures
            final(self).elements == old(self).elements,
            final(self).style == old(self).style,
            final(self).config == old(self).config,
            final(self).footer_img == old(self).footer_img,
            final(self).fonts == old(self).fonts,
            final(self).default_font == old(self).default_font,
            match set {
                Ok(_) => {
                    &&& final(self).header_img matches Some(header)
                    &&& header.image.index == old(self).images@.len()
                    &&& header.position == old(self).header_position(header.image)
                    &&& header.gap_after == gap_after
                    &&& final(self).images@.len() == old(self).images@.len() + 1
                    &&& final(self).images@.take(old(self).images@.len() as int) == old(
                        self,
                    ).images@
                },
                Err(_) => *final(self) == *old(self),
            },
            set is Ok <==> image_rejection(image_data@) is None,
            set matches Err(message) ==> image_rejection(image_data@) == Some(message@),
    {
        match self.load_image(image_data) {
            Ok(image) => {
                self.place_header(image, gap_after);
                Ok(())
            },
            Err(message) => Err(message),
        }
    }

    /// Decodes `image_data`, registers the image and puts it at the bottom
    /// of every page. Data that is no image is refused, and the document
    /// stays as it is.
    pub fn set_footer_image(&mut self, image_data: &[u8]) -> (set: Result<(), String>)
        ensures
            final(self).elements == old(self).elements,
            final(self).style == old(self).style,
            final(self).config == old(self).config,
            final(self).header_img == old(self).header_img,
            final(self).fonts == old(self).fonts,
            final(self).default_font == old(self).default_font,
            match set {
                Ok(_) => {
                    &&& final(self).footer_img matches Some(footer)
                    &&& footer.image.index == old(self).images@.len()
                    &&& footer.position == (Point { x: Length { units: 0 }, y: Length { units: 0 } })
                    &&& footer.gap_after == (Length { units: 0 })
                    &&& final(self).images@.len() == old(self).images@.len() + 1
                    &&& final(self).images@.take(old(self).images@.len() as int) == old(
                        self,
                    ).images@
                },
                Err(_) => *final(self) == *old(self),
            },
            set is Ok <==> image_rejection(image_data@) is None,
            set matches Err(message) ==> image_rejection(image_data@) == Some(message@),
    {
        match self.load_image(image_data) {
            Ok(image) => {
                self.place_footer(image);
                Ok(())
            },
            Err(message) => Err(message),
        }
    }

    /// What is drawn on page `page` besides the elements: the header image
    /// on the first page, and the footer image on every page.
    pub open spec fn decorations(&self, page: int) -> Seq<InstructionModel> {
        let header = match self.header_img {
            Some(image) if page == 0 => seq![image.instruction()],
            _ => Seq::empty(),
        };
        let footer = match self.footer_img {
            Some(image) => seq![image.instruction()],
            None => Seq::empty(),
        };
        header + footer
    }

    /// `pages` with the header and footer images drawn behind what each
    /// page holds.
    pub open spec fn decorated(&self, pages: Seq<Seq<InstructionModel>>) -> Seq<
        Seq<InstructionModel>,
    > {
        Seq::new(pages.len(), |page: int| pages[page] + self.decorations(page))
    }

    /// Draws the header image on the first of `pages` and the footer image
    /// on every one of them.
    pub fn decorate(&self, pages: &mut Vec<Vec<Instruction>>)
        ensures
            pages_model(final(pages)@) == self.decorated(pages_model(old(pages)@)),
    {
        let ghost before = pages_model(pages@);
        let count = pages.len();
        let mut i: usize = 0;
        while i < count
            invariant
                i <= count,
                count == pages.len(),
                count == before.len(),
                forall|k: int| 0 <= k < i ==> #[trigger] pages_model(pages@)[k] == before[k] + self.decorations(k),
                forall|k: int| i <= k < count ==> #[trigger] pages_model(pages@)[k] == before[k],
            decreases count - i,
        {
            let ghost entered = pages@;
            let page = &mut pages[i];
            if i == 0 {
                match self.header_img {
                    Some(image) => {
                        page.push(
                            Instruction::Image { image: image.image, pos: image.position, scale: None },
                        );
                    },
                    None => {},
                }
            }
            match self.footer_img {
                Some(image) => {
                    page.push(
                        Instruction::Image { image: image.image, pos: image.position, scale: None },
                    );
                },
                None => {},
            }
            proof {
                assert forall|k: int| 0 <= k < i + 1 implies #[trigger] pages_model(pages@)[k]
                    == before[k] + self.decorations(k) by {
                    if k < i {
                        assert(pages_model(entered)[k] == before[k] + self.decorations(k));
                    } else {
                        assert(pages_model(entered)[k] == before[k]);
                    }
                }
                assert forall|k: int| i + 1 <= k < count implies #[trigger] pages_model(pages@)[k]
                    == before[k] by {
                    assert(pages_model(entered)[k] == before[k]);
                }
            }
            i += 1;
        }
    }

    /// Whether `image`, if there is one, is registered with this document.
    pub open spec fn image_registered(&self, image: Option<DocumentImage>) -> bool {
        image matches Some(placed) ==> placed.image.index < self.images@.len()
    }

    /// Whether every font and image that the elements name is registered
    /// with this document, `backend` knows the fonts, and the header and
    /// footer images are registered. A document of which this does not hold
    /// cannot be laid out.
    pub open spec fn registered<B: LayoutBackend>(&self, backend: &B) -> bool {
        &&& all_registered(
            backend,
            self.elements@,
            self.fonts@.len(),
            self.images@.len(),
            self.elements@.len(),
        )
        &&& self.image_registered(self.header_img)
        &&& self.image_registered(self.footer_img)
    }

    /// Whether `image`, if there is one, is registered with this document.
    pub fn is_image_registered(&self, image: &Option<DocumentImage>) -> (registered: bool)
        ensures
            registered == self.image_registered(*image),
    {
        match image {
            Some(placed) => placed.image.index < self.images.len(),
            None => true,
        }
    }

    /// Whether every font and image that the elements name is registered
    /// with this document, `backend` knows the fonts, and the header and
    /// footer images are registered.
    pub fn is_registered<B: LayoutBackend>(&self, backend: &B) -> (registered: bool)
        ensures
            registered == self.registered(backend),
    {
        self.is_image_registered(&self.header_img) && self.is_image_registered(&self.footer_img)
            && are_registered(backend, &self.elements, self.fonts.len(), self.images.len())
    }

    /// Lays the elements out from the top of the first page on and gives
    /// the pages, with the header and footer images drawn on them, and the
    /// warnings. Whatever the elements are, there is at least one page.
    pub fn generate_document<B: LayoutBackend>(&self, backend: &B) -> (output: (
        Vec<Vec<Instruction>>,
        Vec<String>,
    ))
        requires
            self.registered(backend),
        ensures
            output.0.len() >= 1,
            pages_model(output.0@) == self.decorated(self.laid_out(backend).pages),
            views(output.1@) == self.laid_out(backend).errors,
            self.start().grows_into(self.laid_out(backend)),
    {
        let mut builder = ElementBuilder::new(self);
        builder.update_cursor(self.first_top());
        self.build(&mut builder, backend);
        let ghost built = builder@;
        let ElementBuilder { pages: mut pages, errors, .. } = builder;
        self.decorate(&mut pages);
        assert(pages.len() == pages_model(pages@).len());
        (pages, errors)
    }

    /// What laying out the elements of the document makes of its root
    /// region.
    pub open spec fn laid_out<B: LayoutBackend>(&self, backend: &B) -> BuilderModel {
        laid_out_all(backend, self.elements@, self.start(), self.elements@.len())
    }

    /// Lays the elements of the document out one below the other in the
    /// region of `builder`.
    pub fn build<B: LayoutBackend>(&self, builder: &mut ElementBuilder, backend: &B)
        requires
            all_ready(backend, self.elements@, old(builder)@),
            old(builder)@.wf(),
        ensures
            old(builder)@.grows_into(final(builder)@),
            final(builder)@ == laid_out_all(
                backend,
                self.elements@,
                old(builder)@,
                self.elements@.len(),
            ),
    {
        let mut i: usize = 0;
        while i < self.elements.len()
            invariant
                i <= self.elements.len(),
                old(builder)@.wf(),
                old(builder)@.grows_into(builder@),
                builder@ == laid_out_all(backend, self.elements@, old(builder)@, i as nat),
                all_ready(backend, self.elements@, old(builder)@),
            decreases self.elements.len() - i,
        {
            proof {
                lemma_each_registered(
                    backend,
                    self.elements@,
                    builder@.fonts as nat,
                    builder@.images as nat,
                    self.elements@.len(),
                    i as int,
                );
            }
            let ghost entered = builder@;
            self.elements[i].build(builder, backend);
            proof {
                lemma_grows_transitive(old(builder)@, entered, builder@);
            }
            i += 1;
        }
    }

}

} // verus!
