//! The read path and the poll-loop tick: size filter, PNG encoding,
//! fingerprinting and the dedup filter, composed in the order
//! read -> encode -> fingerprint -> accept -> publish.
//!
//! The caller does the clipboard read and delivers the publish action;
//! everything decided here is a function of plain values.

use vstd::prelude::*;

use crate::codec::{RawImage, b64_of, decode_to_png, encodable, encode_base64, png_of};
use crate::dedup::DedupState;
use crate::errors::{AccessError, CodecError};
use crate::fingerprint::{fingerprint, md5_of};

verus! {

/// Images with either dimension below this are clipboard noise (1x1
/// artifacts of copy operations) and are treated as "no image".
pub const MIN_DIMENSION: u32 = 64;

/// The size-filter policy: such an image is reported as "no image" and
/// never reaches the fingerprint or publish stage.
pub open spec fn too_small(width: u32, height: u32) -> bool {
    width < 64 || height < 64
}

/// The fingerprint an image gets: the digest of its PNG serialization,
/// not of the raw pixels, so equality is judged on the canonical
/// compressed form.
pub open spec fn image_fp(img: RawImage) -> u128 {
    md5_of(png_of(img.width, img.height, img.pixels@))
}

/// The transport string an image is published as: base64 of its PNG
/// serialization.
pub open spec fn transport_of(img: RawImage) -> Seq<char> {
    b64_of(png_of(img.width, img.height, img.pixels@))
}

/// Turn a clipboard bitmap into a publishable transport string, screened by
/// the size filter and the dedup filter.
///
/// Size-filtered images never touch the dedup state.  A buffer that is
/// malformed or over the decoder's allocation limit is `InvalidBuffer`
/// and never touches the dedup state either.  Otherwise the filter
/// decides: a repeated image is suppressed (`Ok(None)`), a novel one is
/// remembered and returned as base64.
pub fn process_image(dedup: &mut DedupState, img: &RawImage) -> (r: Result<
    Option<String>,
    CodecError,
>)
    ensures
        too_small(img.width, img.height)
            ==> (r matches Ok(o) && o is None) && *final(dedup) == *old(dedup),
        !too_small(img.width, img.height) && !encodable(*img)
            ==> r == Err::<Option<String>, CodecError>(CodecError::InvalidBuffer)
                && *final(dedup) == *old(dedup),
        !too_small(img.width, img.height) && encodable(*img) ==> final(dedup).last_fp() == Some(
            image_fp(*img),
        ),
        !too_small(img.width, img.height) && encodable(*img) && old(dedup).last_fp() == Some(
            image_fp(*img),
        ) ==> (r matches Ok(o) && o is None),
        !too_small(img.width, img.height) && encodable(*img) && old(dedup).last_fp() != Some(
            image_fp(*img),
        ) ==> (r matches Ok(o) && o matches Some(s) && s@ == transport_of(*img)),
{
    if img.width < MIN_DIMENSION || img.height < MIN_DIMENSION {
        return Ok(None);
    }
    let png = match decode_to_png(img) {
        Ok(b) => b,
        Err(e) => {
            return Err(e);
        },
    };
    let fp = fingerprint(&png);
    if dedup.accept(fp) {
        Ok(Some(encode_base64(&png)))
    } else {
        Ok(None)
    }
}

/// What one poll tick does, as a function of the remembered fingerprint,
/// the monitoring-enabled flag and the clipboard read outcome: the new
/// remembered fingerprint, and the transport string to publish if the
/// tick found a genuine novel image.
///
/// A disabled tick does nothing at all; an empty or failed read, a
/// size-filtered image, a malformed or over-limit buffer and a repeated
/// image all end the tick with nothing published and the dedup state
/// unchanged.
pub open spec fn tick_outcome(
    last: Option<u128>,
    enabled: bool,
    read: Result<Option<RawImage>, AccessError>,
) -> (Option<u128>, Option<Seq<char>>) {
    if !enabled {
        (last, None)
    } else {
        match read {
            Ok(Some(img)) => {
                if too_small(img.width, img.height) || !encodable(img) {
                    (last, None)
                } else if last == Some(image_fp(img)) {
                    (last, None)
                } else {
                    (Some(image_fp(img)), Some(transport_of(img)))
                }
            },
            Ok(None) => (last, None),
            Err(_) => (last, None),
        }
    }
}

/// The size filter holds whatever the pixel content: an image with
/// either dimension below the minimum publishes nothing and leaves the
/// remembered fingerprint untouched, so it never reaches the fingerprint
/// or publish stage.
pub proof fn lemma_size_filter(last: Option<u128>, img: RawImage)
    requires
        too_small(img.width, img.height),
    ensures
        tick_outcome(last, true, Ok(Some(img))) == (last, None::<Seq<char>>),
{
}

/// One tick of the poll loop.  `enabled` is the externally owned
/// monitoring flag, `read` the outcome of the clipboard read.  Returns
/// the transport string to publish, or `None` when this tick publishes
/// nothing.  Errors inside the tick are swallowed: a failed read or a
/// malformed buffer never escapes a tick.
pub fn tick(dedup: &mut DedupState, enabled: bool, read: Result<Option<RawImage>, AccessError>)
    -> (r: Option<String>)
    ensures
        final(dedup).last_fp() == tick_outcome(old(dedup).last_fp(), enabled, read).0,
        r is Some <==> tick_outcome(old(dedup).last_fp(), enabled, read).1 is Some,
        r matches Some(s) ==> tick_outcome(old(dedup).last_fp(), enabled, read).1 == Some(s@),
{
    if !enabled {
        return None;
    }
    match read {
        Ok(Some(img)) => match process_image(dedup, &img) {
            Ok(opt) => opt,
            Err(_) => None,
        },
        Ok(None) => None,
        Err(_) => None,
    }
}

} // verus!
