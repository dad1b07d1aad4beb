//! Classification of a clipboard payload: an image short-circuits to the
//! `Image` category and is re-encoded as PNG once; text runs through the
//! detector pipeline.  Reading the clipboard itself is the caller's
//! business; this module takes the extracted payload as plain values.

use vstd::prelude::*;
use vstd::string::StringExecFns;
use crate::detect::{spec_classify, detect_text_type, ContentType};

verus! {

/// A clipboard payload, tagged by kind: image bytes (PNG-encoded), or text.
pub enum ClipboardContent {
    Image(Vec<u8>),
    Text(String),
}

/// A raw raster image: RGBA samples, eight bits per channel, row-major,
/// four bytes per pixel.
pub struct RawImage {
    pub width: u32,
    pub height: u32,
    pub bytes: Vec<u8>,
}

/// The PNG encoding of an RGBA pixel buffer, as the image crate's encoder
/// writes it: a function of the dimensions and the pixels alone.
pub uninterp spec fn png_encoding_of(width: u32, height: u32, pixels: Seq<u8>) -> Seq<u8>;

/// Relies on the image crate: `ImageBuffer::from_raw` accepts an RGBA
/// buffer of at least `4 * width * height` bytes, and `write_to` with the
/// PNG format deterministically encodes exactly those dimensions and
/// pixels.  On a buffer that large, the one encoder failure is a zero width
/// or height, always refused; for positive dimensions the call succeeds.
#[verifier::external_body]
fn encode_png_rgba(width: u32, height: u32, bytes: &Vec<u8>) -> (r: Result<Vec<u8>, String>)
    requires
        4 * (width as int) * (height as int) <= bytes@.len(),
    ensures
        r matches Ok(png) ==> png@ == png_encoding_of(width, height, bytes@),
        width > 0 && height > 0 ==> r is Ok,
        width == 0 || height == 0 ==> r is Err,
{
    let buffer = match image::ImageBuffer::<image::Rgba<u8>, Vec<u8>>::from_raw(
        width,
        height,
        bytes.clone(),
    ) {
        Some(b) => b,
        None => return Err("Failed to create image buffer".to_string()),
    };
    let mut png = Vec::new();
    match buffer.write_to(&mut std::io::Cursor::new(&mut png), image::ImageFormat::Png) {
        Ok(()) => Ok(png),
        Err(e) => Err(format!("Failed to encode PNG: {e}")),
    }
}

/// Re-encode a raw RGBA image as PNG.  A buffer shorter than its dimensions
/// demand is rejected before the encoder ever runs; a zero dimension is a
/// hard error; a large-enough buffer with positive dimensions is always
/// encoded.
pub fn image_to_png(img: &RawImage) -> (r: Result<Vec<u8>, String>)
    ensures
        4 * (img.width as int) * (img.height as int) > img.bytes@.len() ==> (r matches Err(e)
            && e@ == "Failed to create image buffer"@),
        r matches Ok(png) ==> {
            &&& 4 * (img.width as int) * (img.height as int) <= img.bytes@.len()
            &&& png@ == png_encoding_of(img.width, img.height, img.bytes@)
        },
        img.width > 0 && img.height > 0 && 4 * (img.width as int) * (img.height as int)
            <= img.bytes@.len() ==> r is Ok,
        img.width == 0 || img.height == 0 ==> r is Err,
{
    let w = img.width as u64;
    let h = img.height as u64;
    proof {
        assert(w * h <= 0xffff_ffff * 0xffff_ffff && 4 * (img.width as int) * (img.height as int)
            == 4 * ((w as int) * (h as int))) by (nonlinear_arith)
            requires
                w <= 0xffff_ffff,
                h <= 0xffff_ffff,
                w as int == img.width as int,
                h as int == img.height as int,
        ;
    }
    let need: u128 = 4u128 * ((w * h) as u128);
    if need > (img.bytes.len() as u128) {
        return Err(String::from_str("Failed to create image buffer"));
    }
    encode_png_rgba(img.width, img.height, &img.bytes)
}

/// Classify a raw clipboard image: the category is `Image` and the payload
/// is the PNG re-encoding of the same pixels.  An image of positive
/// dimensions with a large-enough buffer always classifies; no text
/// detector plays a part.
pub fn classify_image_content(img: &RawImage) -> (r: Result<(ContentType, ClipboardContent), String>)
    ensures
        4 * (img.width as int) * (img.height as int) > img.bytes@.len() ==> (r matches Err(e)
            && e@ == "Failed to create image buffer"@),
        img.width > 0 && img.height > 0 && 4 * (img.width as int) * (img.height as int)
            <= img.bytes@.len() ==> r is Ok,
        img.width == 0 || img.height == 0 ==> r is Err,
        r matches Ok(p) ==> {
            &&& p.0 == ContentType::Image
            &&& p.1 matches ClipboardContent::Image(b) && b@ == png_encoding_of(
                img.width,
                img.height,
                img.bytes@,
            )
        },
{
    match image_to_png(img) {
        Ok(b) => Ok((ContentType::Image, ClipboardContent::Image(b))),
        Err(e) => Err(e),
    }
}

/// Classify extracted clipboard text and pair it with its payload.  Empty
/// text is rejected — classification itself never fails, so everything else
/// is accepted, `PlainText` as the fallback.
pub fn classify_text_content(text: String) -> (r: Result<(ContentType, ClipboardContent), String>)
    ensures
        text@.len() == 0 ==> (r matches Err(e) && e@ == "Clipboard is empty"@),
        text@.len() > 0 ==> (r matches Ok(p) && {
            &&& p.0 == spec_classify(text@)
            &&& p.1 matches ClipboardContent::Text(t) && t@ == text@
        }),
{
    if text.as_str().is_empty() {
        return Err(String::from_str("Clipboard is empty"));
    }
    let t = detect_text_type(text.as_str());
    Ok((t, ClipboardContent::Text(text)))
}

} // verus!
