//! What the transport needs to know about clipboard contents: the kind of
//! content a poll of the system clipboard found, and the conversion of raw
//! RGBA pixels to and from the encoded PNG payload that image messages
//! carry. Reading and writing the system clipboard itself is I/O and
//! stays with the caller.

use vstd::prelude::*;
use crate::errors::NetError;

verus! {

/// The kind of content a clipboard holds.
#[derive(Debug, Clone, PartialEq, Eq, Structural)]
pub enum ClipboardContentType {
    Text,
    Image,
    Empty,
}

/// The view of an optional string.
pub open spec fn opt_str_view(text: Option<&str>) -> Option<Seq<char>> {
    match text {
        Some(t) => Some(t@),
        None => None,
    }
}

/// What kind a clipboard poll found: an image wins over text, text counts
/// only when non-empty.
pub open spec fn spec_classify(has_image: bool, text: Option<Seq<char>>) -> ClipboardContentType {
    if has_image {
        ClipboardContentType::Image
    } else {
        match text {
            Some(t) => if t.len() > 0 {
                ClipboardContentType::Text
            } else {
                ClipboardContentType::Empty
            },
            None => ClipboardContentType::Empty,
        }
    }
}

/// Classifies one clipboard poll: `has_image` says whether an image could
/// be read, `text` is the text that could be read, if any.
pub fn classify_content(has_image: bool, text: Option<&str>) -> (r: ClipboardContentType)
    ensures
        r == spec_classify(has_image, opt_str_view(text)),
{
    if has_image {
        ClipboardContentType::Image
    } else {
        match text {
            Some(t) => if !t.is_empty() {
                ClipboardContentType::Text
            } else {
                ClipboardContentType::Empty
            },
            None => ClipboardContentType::Empty,
        }
    }
}

/// Whether a classified clipboard holds anything.
pub fn has_content(kind: &ClipboardContentType) -> (r: bool)
    ensures
        r == (*kind != ClipboardContentType::Empty),
{
    !(*kind == ClipboardContentType::Empty)
}

/// An RGBA pixel buffer with its dimensions, as plain values.
#[derive(Debug, Clone, PartialEq)]
pub struct RgbaImageData {
    pub width: u32,
    pub height: u32,
    pub bytes: Vec<u8>,
}

/// The PNG encoding of an RGBA pixel buffer, or `None` where the encoder
/// fails: what `image`'s PNG encoder returns for these dimensions and
/// pixels.
pub uninterp spec fn png_of(width: u32, height: u32, rgba: Seq<u8>) -> Option<Seq<u8>>;

/// The RGBA pixels of a PNG payload, or `None` where the bytes are no
/// valid PNG: what `image`'s PNG decoder returns for these bytes.
pub uninterp spec fn png_rgba_of(data: Seq<u8>) -> Option<Seq<u8>>;

/// Relies on `image::RgbaImage::from_raw` (which accepts a buffer of
/// exactly `4 * width * height` bytes) and `image::RgbaImage::write_to`
/// with the PNG format: whether the encoder succeeds and what it writes
/// depend on the dimensions and pixels alone.
#[verifier::external_body]
fn encode_png(width: u32, height: u32, rgba: &Vec<u8>) -> (r: Option<Vec<u8>>)
    requires
        rgba@.len() == 4 * width * height,
    ensures
        r is Some <==> png_of(width, height, rgba@) is Some,
        r is Some ==> r.unwrap()@ == png_of(width, height, rgba@).unwrap(),
{
    let img = image::RgbaImage::from_raw(width, height, rgba.clone())?;
    let mut out: Vec<u8> = Vec::new();
    let mut cursor = std::io::Cursor::new(&mut out);
    match img.write_to(&mut cursor, image::ImageFormat::Png) {
        Ok(()) => Some(out),
        Err(_) => None,
    }
}

/// Relies on `image::load` with the PNG format and
/// `image::DynamicImage::to_rgba8`: the decoded pixels depend on the
/// encoded bytes alone, and decoding fails exactly where they are no
/// valid PNG.
#[verifier::external_body]
fn decode_png(data: &[u8]) -> (r: Option<Vec<u8>>)
    ensures
        r is Some <==> png_rgba_of(data@) is Some,
        r is Some ==> r.unwrap()@ == png_rgba_of(data@).unwrap(),
{
    let cursor = std::io::Cursor::new(data);
    match image::load(cursor, image::ImageFormat::Png) {
        Ok(img) => Some(img.to_rgba8().into_raw()),
        Err(_) => None,
    }
}

/// Encodes an RGBA pixel buffer as the PNG payload of an image message:
/// it succeeds exactly when the buffer is `4 * width * height` bytes and
/// the encoder accepts it. A buffer of any other size is rejected.
pub fn rgba_to_png(width: u32, height: u32, rgba: &Vec<u8>) -> (r: Result<Vec<u8>, NetError>)
    ensures
        r is Ok <==> rgba@.len() == 4 * width * height && png_of(width, height, rgba@) is Some,
        r is Ok ==> r.unwrap()@ == png_of(width, height, rgba@).unwrap(),
        r is Err ==> r.unwrap_err() == NetError::EncodeFailed,
{
    proof {
        assert((4 * (width as int)) * (height as int) < 0x100000000000000000)
            by (nonlinear_arith)
            requires
                width as int <= 0xffffffff && height as int <= 0xffffffff,
        ;
    }
    let expected: u128 = 4u128 * (width as u128) * (height as u128);
    if (rgba.len() as u128) != expected {
        return Err(NetError::EncodeFailed);
    }
    match encode_png(width, height, rgba) {
        Some(v) => Ok(v),
        None => Err(NetError::EncodeFailed),
    }
}

/// Decodes the PNG payload of an image message back to RGBA pixels,
/// keeping the dimensions the message declared, as the clipboard write
/// path expects them.
pub fn png_to_rgba(width: u32, height: u32, png_data: &[u8]) -> (r: Result<RgbaImageData, NetError>)
    ensures
        r is Ok <==> png_rgba_of(png_data@) is Some,
        r is Ok ==> r.unwrap().width == width && r.unwrap().height == height
            && r.unwrap().bytes@ == png_rgba_of(png_data@).unwrap(),
        r is Err ==> r.unwrap_err() == NetError::MalformedPayload,
{
    match decode_png(png_data) {
        Some(bytes) => Ok(RgbaImageData { width, height, bytes }),
        None => Err(NetError::MalformedPayload),
    }
}

} // verus!
