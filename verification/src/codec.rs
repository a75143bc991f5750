//! Image codec: raw RGBA buffers to canonical PNG bytes and a base64
//! transport string, and the inverse path.
//!
//! The PNG and base64 computations are done by outside crates; their
//! results are named by uninterpreted spec functions, and every public
//! function's contract is stated over those names.

use vstd::prelude::*;

use crate::errors::CodecError;

verus! {

/// A raw RGBA8 bitmap, as handed over by the OS clipboard or produced by
/// decoding an inbound image.  `pixels` holds 4 bytes per pixel, row-major.
pub struct RawImage {
    pub width: u32,
    pub height: u32,
    pub pixels: Vec<u8>,
}

impl RawImage {
    /// The buffer length matches the dimensions exactly.
    pub open spec fn wf(&self) -> bool {
        self.pixels@.len() == self.width * self.height * 4
    }
}

/// The decoder admits at most this many decoded RGBA bytes per image:
/// `image::load_from_memory` applies the crate's default allocation limit
/// of 512 MiB to the decoded buffer.  The encoder keeps to the same bound,
/// so that every image it serializes decodes back.
pub const MAX_DECODED_BYTES: u64 = 536870912;

/// An image the codec serializes: well-formed, with positive dimensions
/// (PNG has no zero-sized image), and within the decoder's allocation
/// limit.
pub open spec fn encodable(img: RawImage) -> bool {
    &&& img.wf()
    &&& 1 <= img.width
    &&& 1 <= img.height
    &&& img.width * img.height * 4 <= MAX_DECODED_BYTES
}

/// The PNG serialization of an RGBA8 buffer with the given dimensions.
pub uninterp spec fn png_of(width: u32, height: u32, pixels: Seq<u8>) -> Seq<u8>;

/// What decoding a byte sequence as an image yields: the RGBA8 dimensions
/// and pixels, or `None` where the bytes are not a valid image.
pub uninterp spec fn png_parse(bytes: Seq<u8>) -> Option<(u32, u32, Seq<u8>)>;

/// The standard (padded) base64 rendering of a byte sequence.
pub uninterp spec fn b64_of(bytes: Seq<u8>) -> Seq<char>;

/// What decoding a string as standard base64 yields, or `None` where the
/// string is malformed.
pub uninterp spec fn b64_parse(s: Seq<char>) -> Option<Seq<u8>>;

/// Relies on `image::DynamicImage::write_to` with `ImageFormat::Png`:
/// serializing an RGBA8 buffer of positive dimensions into an in-memory
/// writer succeeds, the output is determined by the dimensions and pixels
/// alone, and — PNG storing RGBA8 losslessly — decoding that output
/// restores the exact dimensions and pixel bytes.  `RgbaImage::from_raw`
/// accepts the buffer because its length is exactly `width * height * 4`,
/// and the decoder's default 512 MiB allocation limit admits the decode
/// because the buffer is bounded by `MAX_DECODED_BYTES`.
#[verifier::external_body]
fn png_encode(width: u32, height: u32, pixels: &Vec<u8>) -> (r: Vec<u8>)
    requires
        pixels@.len() == width * height * 4,
        1 <= width,
        1 <= height,
        width * height * 4 <= MAX_DECODED_BYTES,
    ensures
        r@ == png_of(width, height, pixels@),
        r@ == png_of(width, height, pixels@)
            && png_parse(r@) == Some((width, height, pixels@)),
{
    let buffer = image::RgbaImage::from_raw(width, height, pixels.clone())
        .expect("buffer length matches dimensions");
    let img = image::DynamicImage::ImageRgba8(buffer);
    let mut out: Vec<u8> = Vec::new();
    img.write_to(&mut std::io::Cursor::new(&mut out), image::ImageFormat::Png)
        .expect("in-memory PNG encoding of a non-empty RGBA8 image");
    out
}

/// Relies on `image::load_from_memory` followed by
/// `DynamicImage::to_rgba8`: decoding is deterministic in the input
/// bytes, fails exactly on bytes that are not a valid image, and a
/// decoded image carries an exactly-sized RGBA8 buffer.
#[verifier::external_body]
fn png_decode(bytes: &Vec<u8>) -> (r: Option<RawImage>)
    ensures
        png_parse(bytes@) is None ==> r is None,
        png_parse(bytes@) is Some ==> r is Some,
        r matches Some(img) ==> img.wf()
            && png_parse(bytes@) == Some((img.width, img.height, img.pixels@)),
{
    match image::load_from_memory(bytes) {
        Ok(decoded) => {
            let rgba = decoded.to_rgba8();
            let (width, height) = rgba.dimensions();
            Some(RawImage { width, height, pixels: rgba.into_raw() })
        }
        Err(_) => None,
    }
}

/// Relies on `base64::engine::Engine::encode` with the `STANDARD` engine:
/// total over all byte sequences, determined by the input bytes alone,
/// and inverted by `Engine::decode` of the same engine.
#[verifier::external_body]
fn b64_encode(bytes: &Vec<u8>) -> (r: String)
    ensures
        r@ == b64_of(bytes@),
        r@ == b64_of(bytes@) && b64_parse(r@) == Some(bytes@),
{
    base64::Engine::encode(&base64::engine::general_purpose::STANDARD, bytes)
}

/// Relies on `base64::engine::Engine::decode` with the `STANDARD` engine:
/// decoding is deterministic in the input string and fails exactly on
/// malformed base64.
#[verifier::external_body]
fn b64_decode(s: &str) -> (r: Option<Vec<u8>>)
    ensures
        b64_parse(s@) is None ==> r is None,
        b64_parse(s@) is Some ==> r is Some,
        r matches Some(v) ==> b64_parse(s@) == Some(v@),
{
    match base64::Engine::decode(&base64::engine::general_purpose::STANDARD, s) {
        Ok(v) => Some(v),
        Err(_) => None,
    }
}

/// Serialize a raw bitmap losslessly to PNG bytes.
///
/// Fails with `InvalidBuffer` exactly when the image is not encodable:
/// the pixel buffer does not match the dimensions, a dimension is zero
/// (PNG has no zero-sized image), or the buffer is over the decoder's
/// allocation limit — an encoding nothing could decode back is refused
/// up front.
pub fn decode_to_png(img: &RawImage) -> (r: Result<Vec<u8>, CodecError>)
    ensures
        encodable(*img)
            ==> (r matches Ok(b)
                && b@ == png_of(img.width, img.height, img.pixels@)
                && png_parse(b@) == Some((img.width, img.height, img.pixels@))),
        !encodable(*img) ==> r == Err::<Vec<u8>, CodecError>(CodecError::InvalidBuffer),
        r matches Ok(b) ==> img.wf() && b@ == png_of(img.width, img.height, img.pixels@),
{
    let w: u128 = img.width as u128;
    let h: u128 = img.height as u128;
    proof {
        assert(w * h <= 0xffff_ffffu128 * 0xffff_ffffu128) by (nonlinear_arith)
            requires w <= 0xffff_ffffu128, h <= 0xffff_ffffu128;
    }
    let expected: u128 = w * h * 4;
    if img.pixels.len() as u128 != expected
        || img.width == 0
        || img.height == 0
        || expected > MAX_DECODED_BYTES as u128
    {
        Err(CodecError::InvalidBuffer)
    } else {
        Ok(png_encode(img.width, img.height, &img.pixels))
    }
}

/// Render bytes as a base64 transport string.  Total: never fails, and
/// decoding the result yields the input bytes back.
pub fn encode_base64(bytes: &Vec<u8>) -> (r: String)
    ensures
        r@ == b64_of(bytes@),
        b64_parse(r@) == Some(bytes@),
{
    b64_encode(bytes)
}

/// Decode a base64 transport string back to bytes.
///
/// Returns `BadTransport` exactly on malformed base64.
pub fn decode_base64(s: &str) -> (r: Result<Vec<u8>, CodecError>)
    ensures
        r matches Ok(v) ==> b64_parse(s@) == Some(v@),
        b64_parse(s@) matches Some(b) ==> (r matches Ok(v) && v@ == b),
        b64_parse(s@) is None ==> r == Err::<Vec<u8>, CodecError>(CodecError::BadTransport),
{
    match b64_decode(s) {
        Some(v) => Ok(v),
        None => Err(CodecError::BadTransport),
    }
}

/// Inverse transport path: base64 text to raw bitmap.
///
/// Returns `BadTransport` exactly on malformed base64 and `BadImage`
/// exactly where the decoded bytes are not a valid image; on success the
/// bitmap is exactly what the bytes parse to.
pub fn decode_base64_then_png(s: &str) -> (r: Result<RawImage, CodecError>)
    ensures
        b64_parse(s@) is None
            <==> r == Err::<RawImage, CodecError>(CodecError::BadTransport),
        (b64_parse(s@) matches Some(b) && png_parse(b) is None)
            <==> r == Err::<RawImage, CodecError>(CodecError::BadImage),
        b64_parse(s@) matches Some(b) ==> png_parse(b) matches Some(t)
            ==> (r matches Ok(img) && img.wf()
                && img.width == t.0 && img.height == t.1 && img.pixels@ == t.2),
{
    let bytes = match b64_decode(s) {
        Some(v) => v,
        None => {
            return Err(CodecError::BadTransport);
        },
    };
    match png_decode(&bytes) {
        Some(img) => Ok(img),
        None => Err(CodecError::BadImage),
    }
}

/// Round trip: encoding a raw bitmap to PNG, rendering the PNG as base64,
/// and decoding the transport string reconstructs an image with identical
/// width, height and pixel bytes, for every encodable bitmap — well
/// formed, of positive dimensions, within the decoder's allocation
/// limit.
pub fn codec_round_trip(raw: &RawImage) -> (r: Result<RawImage, CodecError>)
    ensures
        encodable(*raw)
            ==> (r matches Ok(img)
                && img.width == raw.width
                && img.height == raw.height
                && img.pixels@ == raw.pixels@),
{
    let png = decode_to_png(raw)?;
    let transport = encode_base64(&png);
    decode_base64_then_png(transport.as_str())
}

} // verus!
