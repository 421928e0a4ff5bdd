use imgpipe::CanonicalImage;
use imgpipe::ColorSpace;
use imgpipe::DecodeStep;
use imgpipe::EncoderChoice;
use imgpipe::JpegOptions;
use imgpipe::encode_image;

fn sample_rgb() -> CanonicalImage {
    CanonicalImage::from_u8(
        vec![255, 0, 0, 0, 255, 0, 0, 0, 255, 10, 20, 30],
        2,
        2,
        ColorSpace::RGB,
    )
}

#[test]
fn qoi_round_trip_recovers_image_exactly() {
    let img = sample_rgb();
    let bytes = encode_image(&EncoderChoice::Qoi, &img).unwrap();
    match imgpipe::decode(&bytes, None) {
        DecodeStep::Image(back) => {
            assert_eq!(back.width, 2);
            assert_eq!(back.height, 2);
            assert_eq!(back.colorspace, ColorSpace::RGB);
            assert_eq!(back.data, img.data);
        }
        _ => panic!("the encoded image must decode"),
    }
}

#[test]
fn png_round_trip_recovers_dimensions_and_colorspace() {
    let img = sample_rgb();
    let bytes = encode_image(&EncoderChoice::Png, &img).unwrap();
    match imgpipe::decode(&bytes, None) {
        DecodeStep::Image(back) => {
            assert_eq!((back.width, back.height), (2, 2));
            assert_eq!(back.colorspace, ColorSpace::RGB);
            assert_eq!(back.data, img.data);
        }
        _ => panic!("the encoded image must decode"),
    }
}

#[test]
fn farbfeld_encode_writes_the_documented_layout() {
    let img = sample_rgb();
    let bytes = encode_image(&EncoderChoice::Farbfeld, &img).unwrap();
    // The format: an eight-byte magic, two big-endian dimensions, then
    // width * height RGBA samples of two bytes per channel.
    assert_eq!(&bytes[0..8], b"farbfeld");
    assert_eq!(&bytes[8..16], &[0, 0, 0, 2, 0, 0, 0, 2]);
    assert_eq!(bytes.len(), 16 + 2 * 2 * 8);
}

#[test]
fn jpeg_encode_accepts_quality_options() {
    let img = sample_rgb();
    let choice = EncoderChoice::Jpeg(JpegOptions { quality: Some(90), progressive: false });
    let bytes = encode_image(&choice, &img).unwrap();
    // JPEG's two-byte start-of-image marker.
    assert_eq!(&bytes[0..2], &[0xFF, 0xD8]);
}

#[test]
fn encoding_and_decoding_are_deterministic() {
    let img = sample_rgb();
    let a = encode_image(&EncoderChoice::Qoi, &img).unwrap();
    let b = encode_image(&EncoderChoice::Qoi, &img).unwrap();
    assert_eq!(a, b);
    let first = imgpipe::decode(&a, None);
    let second = imgpipe::decode(&b, None);
    match (first, second) {
        (DecodeStep::Image(x), DecodeStep::Image(y)) => {
            assert_eq!((x.width, x.height, x.colorspace), (y.width, y.height, y.colorspace));
            assert_eq!(x.data, y.data);
        }
        _ => panic!("both decodes must yield the image"),
    }
}

#[test]
fn sixteen_bit_image_encodes_through_flatten() {
    // One RGB pixel at sixteen bits per sample, stored native endian.
    let img = CanonicalImage::from_u16_bytes(
        vec![0x00, 0xFF, 0x00, 0x80, 0x00, 0x10],
        1,
        1,
        ColorSpace::RGB,
    );
    let bytes = encode_image(&EncoderChoice::Qoi, &img).unwrap();
    match imgpipe::decode(&bytes, None) {
        DecodeStep::Image(back) => {
            assert_eq!((back.width, back.height), (1, 1));
            assert_eq!(back.data, vec![0xFF, 0x80, 0x10]);
        }
        _ => panic!("the encoded image must decode"),
    }
}

#[test]
fn unknown_layouts_keep_their_channel_count() {
    // A grayscale-with-alpha PNG: the universal decoder hands back a
    // two-channel layout the canonical enumeration lacks; it maps to
    // Unknown, keeps its channel count, and is not rejected.
    let gray_alpha = zune_image::image::Image::from_u8(
        &[10, 255, 20, 200, 30, 150, 40, 100],
        2,
        2,
        zune_core::colorspace::ColorSpace::LumaA,
    );
    let mut bytes: Vec<u8> = Vec::new();
    gray_alpha.encode(zune_image::codecs::ImageFormat::PNG, &mut bytes).unwrap();
    match imgpipe::decode(&bytes, None) {
        DecodeStep::Image(back) => {
            assert_eq!((back.width, back.height), (2, 2));
            assert_eq!(back.colorspace, ColorSpace::Unknown);
            assert_eq!(back.channels, 2);
            assert_eq!(back.data.len(), 2 * 2 * 2);
        }
        DecodeStep::TrySpecialized(_) => panic!("the format must be recognized"),
        DecodeStep::Failed(e) => panic!("a decodable image must not be rejected: {e:?}"),
    }
}

#[test]
fn sixteen_bit_sources_keep_their_depth() {
    let deep = zune_image::image::Image::from_u16(
        &[0x0102, 0x0304, 0x0506, 0x0708, 0x090A, 0x0B0C],
        2,
        1,
        zune_core::colorspace::ColorSpace::RGB,
    );
    let mut bytes: Vec<u8> = Vec::new();
    deep.encode(zune_image::codecs::ImageFormat::PNG, &mut bytes).unwrap();
    match imgpipe::decode(&bytes, None) {
        DecodeStep::Image(back) => {
            assert_eq!((back.width, back.height), (2, 1));
            assert_eq!(back.colorspace, ColorSpace::RGB);
            assert_eq!(back.depth, imgpipe::BitDepth::Sixteen);
            assert_eq!(back.data.len(), 2 * 1 * 3 * 2);
            // The flattened eight-bit view keeps each sample's high byte.
            assert_eq!(back.flatten_to_u8(), vec![0x01, 0x03, 0x05, 0x07, 0x09, 0x0B]);
        }
        DecodeStep::TrySpecialized(_) => panic!("the format must be recognized"),
        DecodeStep::Failed(e) => panic!("a decodable image must not be rejected: {e:?}"),
    }
}
