//! Tests of the image codec: PNG serialization, base64 transport, and
//! the inverse path.

use shotpipe::codec::{
    RawImage, codec_round_trip, decode_base64, decode_base64_then_png, decode_to_png,
    encode_base64,
};
use shotpipe::errors::CodecError;

fn gradient_image(width: u32, height: u32) -> RawImage {
    let mut pixels: Vec<u8> = Vec::new();
    for y in 0..height {
        for x in 0..width {
            pixels.push((x % 256) as u8);
            pixels.push((y % 256) as u8);
            pixels.push(((x + y) % 256) as u8);
            pixels.push(255);
        }
    }
    RawImage { width, height, pixels }
}

#[test]
fn round_trip_reconstructs_raw_image() {
    let raw = gradient_image(5, 3);
    let png = decode_to_png(&raw).unwrap();
    let transport = encode_base64(&png);
    let back = decode_base64_then_png(transport.as_str()).unwrap();
    assert_eq!(back.width, 5);
    assert_eq!(back.height, 3);
    assert_eq!(back.pixels, raw.pixels);
}

#[test]
fn codec_round_trip_function() {
    let raw = gradient_image(64, 64);
    let back = codec_round_trip(&raw).unwrap();
    assert_eq!(back.width, raw.width);
    assert_eq!(back.height, raw.height);
    assert_eq!(back.pixels, raw.pixels);
}

#[test]
fn png_output_is_a_png_stream() {
    let raw = gradient_image(2, 2);
    let png = decode_to_png(&raw).unwrap();
    // the PNG signature, not the raw buffer handed back
    assert!(png.len() > 8);
    assert_eq!(&png[0..4], &[0x89, b'P', b'N', b'G']);
    assert_ne!(png, raw.pixels);
}

#[test]
fn invalid_buffer_is_rejected() {
    let raw = RawImage { width: 100, height: 100, pixels: vec![1, 2, 3] };
    assert_eq!(decode_to_png(&raw), Err(CodecError::InvalidBuffer));
}

#[test]
fn zero_dimension_is_rejected() {
    let raw = RawImage { width: 0, height: 0, pixels: Vec::new() };
    assert_eq!(decode_to_png(&raw), Err(CodecError::InvalidBuffer));
}

#[test]
fn over_limit_image_is_rejected() {
    // just over the decoder's 512 MiB allocation limit: refused up front,
    // since nothing could decode its encoding back
    let pixels = vec![0u8; 8192 * 16385 * 4];
    let raw = RawImage { width: 8192, height: 16385, pixels };
    assert_eq!(decode_to_png(&raw), Err(CodecError::InvalidBuffer));
}

#[test]
fn encode_base64_known_value() {
    let bytes = vec![b'h', b'e', b'l', b'l', b'o'];
    assert_eq!(encode_base64(&bytes), "aGVsbG8=");
}

#[test]
fn decode_base64_known_value() {
    let decoded = decode_base64("aGVsbG8=").unwrap();
    assert_eq!(decoded, vec![b'h', b'e', b'l', b'l', b'o']);
}

#[test]
fn decode_base64_rejects_malformed_text() {
    assert_eq!(decode_base64("not base64!!!"), Err(CodecError::BadTransport));
}

#[test]
fn bad_transport_from_non_base64_text() {
    let r = decode_base64_then_png("this is definitely not base64!!!");
    assert_eq!(r.err(), Some(CodecError::BadTransport));
}

#[test]
fn bad_image_from_valid_base64_of_non_image_bytes() {
    let bytes = vec![b'h', b'e', b'l', b'l', b'o'];
    let transport = encode_base64(&bytes);
    let r = decode_base64_then_png(transport.as_str());
    assert_eq!(r.err(), Some(CodecError::BadImage));
}

#[test]
fn codec_error_messages() {
    assert_eq!(
        CodecError::InvalidBuffer.message(),
        "pixel buffer does not match its dimensions"
    );
    assert_eq!(CodecError::BadTransport.message(), "transport string is not valid base64");
    assert_eq!(CodecError::BadImage.message(), "bytes are not a valid image");
}
