//! The encoder: turn a text payload into a rendered QR-code image,
//! raster (PNG) or vector (SVG).
//!
//! The QR symbol itself and the two renderings are computed by the
//! `qrcode` and `image` crates behind the trusted items below; what each
//! call returns is a function of its arguments alone, so the whole
//! encoder is deterministic.

use vstd::prelude::*;
use crate::OutputFormat;

verus! {

#[verifier::external_type_specification]
#[verifier::external_body]
pub struct ExQrCode(qrcode::QrCode);

#[verifier::external_type_specification]
#[verifier::external_body]
pub struct ExQrError(qrcode::types::QrError);

#[verifier::external_type_specification]
#[verifier::external_body]
pub struct ExImageError(image::ImageError);

/// The module matrix (rows of dark/light cells) that `qrcode::QrCode::new`
/// builds for a payload at its default (medium) error-correction level and
/// smallest fitting version, or `None` when the payload exceeds capacity.
pub uninterp spec fn qr_symbol_of(s: Seq<char>) -> Option<Seq<Seq<bool>>>;

/// The module matrix a `qrcode::QrCode` value holds.
pub uninterp spec fn qr_modules(code: qrcode::QrCode) -> Seq<Seq<bool>>;

/// The PNG bytes that rendering a module matrix as a grayscale image of
/// minimum dimensions 1000 x 1000 produces, or `None` when the PNG writer
/// rejects the image.
pub uninterp spec fn png_render(rows: Seq<Seq<bool>>) -> Option<Seq<u8>>;

/// The SVG markup (as UTF-8 bytes) that rendering a module matrix with
/// black modules on a white background and minimum dimensions 1000 x 1000
/// produces.
pub uninterp spec fn svg_render(rows: Seq<Seq<bool>>) -> Seq<u8>;

/// Whether a payload fits a QR symbol at the library's default settings.
pub open spec fn qr_fits(s: Seq<char>) -> bool {
    qr_symbol_of(s) is Some
}

/// Relies on `qrcode::QrCode::new`: constructs the smallest QR symbol for
/// the data at medium error correction, fails exactly when the data is too
/// long for any version, and depends on the data alone.
#[verifier::external_body]
fn qr_new(content: &str) -> (r: Result<qrcode::QrCode, qrcode::types::QrError>)
    ensures
        r is Ok <==> qr_symbol_of(content@) is Some,
        r is Ok ==> qr_modules(r->Ok_0) == qr_symbol_of(content@)->0,
{
    qrcode::QrCode::new(content)
}

/// Relies on `qrcode::render::Renderer::build` over `image::Luma<u8>`
/// pixels (module matrix to grayscale bitmap, quiet zone included, scaled
/// to at least 1000 x 1000) and on `image::ImageBuffer::write_to` with
/// `ImageFormat::Png` (in-memory PNG serialization): both compute from the
/// module matrix alone.
#[verifier::external_body]
fn render_png(code: &qrcode::QrCode) -> (r: Result<Vec<u8>, image::ImageError>)
    ensures
        r is Ok <==> png_render(qr_modules(*code)) is Some,
        r is Ok ==> r->Ok_0@ == png_render(qr_modules(*code))->0,
{
    let img = code.render::<image::Luma<u8>>().min_dimensions(1000, 1000).build();
    let mut bytes: Vec<u8> = Vec::new();
    match img.write_to(&mut std::io::Cursor::new(&mut bytes), image::ImageFormat::Png) {
        Ok(()) => Ok(bytes),
        Err(e) => Err(e),
    }
}

/// Relies on `qrcode::render::Renderer::build` over `svg::Color` pixels:
/// writes SVG markup for the module matrix with dark color `#000000` and
/// light color `#ffffff`, scaled to at least 1000 x 1000 units, computed
/// from the module matrix alone.
#[verifier::external_body]
fn render_svg(code: &qrcode::QrCode) -> (r: Vec<u8>)
    ensures
        r@ == svg_render(qr_modules(*code)),
{
    code.render()
        .dark_color(qrcode::render::svg::Color("#000000"))
        .light_color(qrcode::render::svg::Color("#ffffff"))
        .min_dimensions(1000, 1000)
        .build()
        .into_bytes()
}

/// Why encoding a payload failed.
#[derive(Clone, Copy, PartialEq, Eq, Structural, Debug)]
pub enum EncodingError {
    /// The payload cannot be turned into a QR symbol (too long).
    SymbolConstruction,
    /// Rendering or serializing the image failed.
    Render,
}

/// A rendered image: its bytes and the format they are in.
pub struct EncodedImage {
    pub bytes: Vec<u8>,
    pub format: OutputFormat,
}

/// The MIME content type of each output format.
pub open spec fn spec_content_type(f: OutputFormat) -> Seq<char> {
    match f {
        OutputFormat::PNG => "image/png"@,
        OutputFormat::SVG => "image/svg+xml"@,
    }
}

impl EncodedImage {
    /// The MIME content type of `bytes`.
    pub fn content_type(&self) -> (r: &'static str)
        ensures
            r@ == spec_content_type(self.format),
    {
        match self.format {
            OutputFormat::PNG => "image/png",
            OutputFormat::SVG => "image/svg+xml",
        }
    }
}

/// What `encode` returns: the payload and the format determine the bytes
/// (and whether encoding succeeds at all).
pub open spec fn spec_encode(s: Seq<char>, f: OutputFormat) -> Result<Seq<u8>, EncodingError> {
    match qr_symbol_of(s) {
        Option::None => Err(EncodingError::SymbolConstruction),
        Option::Some(rows) => match f {
            OutputFormat::SVG => Ok(svg_render(rows)),
            OutputFormat::PNG => match png_render(rows) {
                Option::Some(b) => Ok(b),
                Option::None => Err(EncodingError::Render),
            },
        },
    }
}

/// Encodes `content` as a QR symbol and renders it in `format`.
///
/// Fails with `SymbolConstruction` exactly when the payload exceeds the
/// QR capacity, and with `Render` when the PNG writer rejects the image.
pub fn encode(content: &str, format: OutputFormat) -> (r: Result<EncodedImage, EncodingError>)
    ensures
        r is Ok <==> spec_encode(content@, format) is Ok,
        r is Ok ==> r->Ok_0.bytes@ == spec_encode(content@, format)->Ok_0,
        r is Ok ==> r->Ok_0.format == format,
        r is Err ==> r->Err_0 == spec_encode(content@, format)->Err_0,
{
    let code = match qr_new(content) {
        Ok(code) => code,
        Err(_) => {
            return Err(EncodingError::SymbolConstruction);
        },
    };
    match format {
        OutputFormat::PNG => match render_png(&code) {
            Ok(bytes) => Ok(EncodedImage { bytes, format }),
            Err(_) => Err(EncodingError::Render),
        },
        OutputFormat::SVG => Ok(EncodedImage { bytes: render_svg(&code), format }),
    }
}

/// Encoding is pure: the payload and the format alone determine the
/// result, so two calls of `encode` with identical arguments return
/// byte-identical output.
pub proof fn lemma_encode_deterministic(
    s1: Seq<char>,
    s2: Seq<char>,
    f1: OutputFormat,
    f2: OutputFormat,
)
    requires
        s1 == s2,
        f1 == f2,
    ensures
        spec_encode(s1, f1) == spec_encode(s2, f2),
{
}

} // verus!
