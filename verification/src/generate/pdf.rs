//! What the document takes from `printpdf`: the registry of fonts and
//! images. Nothing here is proved; each item says what it takes for granted.
//! Whether data are a font or an image is the parser's and the decoder's to
//! say: their verdicts are named, not described.

use vstd::prelude::*;

verus! {

/// `printpdf::PdfDocument`, of which nothing is known here but that it is
/// handed on.
#[verifier::external_type_specification]
#[verifier::external_body]
pub struct ExPdfDocument(printpdf::PdfDocument);

/// `printpdf::ParsedFont`: a font that was parsed.
#[verifier::external_type_specification]
#[verifier::external_body]
pub struct ExParsedFont(printpdf::ParsedFont);

/// `printpdf::RawImage`: an image that was decoded.
#[verifier::external_type_specification]
#[verifier::external_body]
pub struct ExRawImage(printpdf::RawImage);

/// `printpdf::FontId`: the name under which a document keeps a font.
#[verifier::external_type_specification]
#[verifier::external_body]
pub struct ExPdfFontId(printpdf::FontId);

/// `printpdf::XObjectId`: the name under which a document keeps an image.
#[verifier::external_type_specification]
#[verifier::external_body]
pub struct ExXObjectId(printpdf::XObjectId);

/// Calls `printpdf::PdfDocument::new`, which makes a document without
/// pages, fonts or images. Nothing is claimed of the document.
#[verifier::external_body]
pub(crate) fn new_pdf_document(name: &str) -> printpdf::PdfDocument {
    printpdf::PdfDocument::new(name)
}

/// The messages that `printpdf::ParsedFont::from_bytes` leaves of the first
/// font in `font_data` where it gives no font, in the order in which it
/// leaves them; `None` where it gives one. The parser reads nothing but the
/// data, so the same data fare the same.
pub uninterp spec fn font_rejection(font_data: Seq<u8>) -> Option<Seq<Seq<char>>>;

/// Calls `printpdf::ParsedFont::from_bytes` on the first font in
/// `font_data`. It gives a font exactly where `font_rejection` names no
/// messages; else the text of each message that the parser left is handed
/// back, in order. Of which data parse nothing is claimed.
#[verifier::external_body]
pub(crate) fn parse_font(font_data: &[u8]) -> (parsed: Result<printpdf::ParsedFont, Vec<String>>)
    ensures
        parsed is Ok <==> font_rejection(font_data@) is None,
        parsed matches Err(messages) ==> font_rejection(font_data@) == Some(
            messages@.map_values(|message: String| message@),
        ),
{
    let mut warnings = Vec::new();
    match printpdf::ParsedFont::from_bytes(font_data, 0, &mut warnings) {
        Some(font) => Ok(font),
        None => Err(warnings.into_iter().map(|w| w.msg).collect()),
    }
}

/// Calls `printpdf::PdfDocument::add_font`, which stores a copy of `font`
/// in the document under an identifier that it makes up. Nothing is claimed
/// of the identifier.
#[verifier::external_body]
pub(crate) fn register_font(
    document: &mut printpdf::PdfDocument,
    font: &printpdf::ParsedFont,
) -> printpdf::FontId {
    document.add_font(font)
}

/// The message with which `printpdf::RawImage::decode_from_bytes` refuses
/// `image_data`; `None` where it decodes them. The decoder reads nothing but
/// the data, so the same data fare the same.
pub uninterp spec fn image_rejection(image_data: Seq<u8>) -> Option<Seq<char>>;

/// Calls `printpdf::RawImage::decode_from_bytes`. It gives an image exactly
/// where `image_rejection` names no message; else its message is handed
/// back. Of which data decode nothing is claimed.
#[verifier::external_body]
pub(crate) fn decode_image(image_data: &[u8]) -> (decoded: Result<printpdf::RawImage, String>)
    ensures
        decoded is Ok <==> image_rejection(image_data@) is None,
        decoded matches Err(message) ==> image_rejection(image_data@) == Some(message@),
{
    printpdf::RawImage::decode_from_bytes(image_data, &mut Vec::new())
}

/// Reads the fields `width` and `height` of a `printpdf::RawImage`: its
/// size in pixels.
#[verifier::external_body]
pub(crate) fn image_size(image: &printpdf::RawImage) -> (usize, usize) {
    (image.width, image.height)
}

/// Calls `printpdf::PdfDocument::add_image`, which stores a copy of
/// `image` in the document under an identifier that it makes up. Nothing is
/// claimed of the identifier.
#[verifier::external_body]
pub(crate) fn register_image(
    document: &mut printpdf::PdfDocument,
    image: &printpdf::RawImage,
) -> printpdf::XObjectId {
    document.add_image(image)
}

} // verus!
