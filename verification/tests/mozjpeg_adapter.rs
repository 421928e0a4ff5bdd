//! Drive the real native JPEG library from a verified encode plan, then
//! decode the produced bytes back through the library's own dispatcher.

use imgpipe::CanonicalImage;
use imgpipe::ColorSpace;
use imgpipe::DecodeStep;
use imgpipe::MozJpegEncoder;
use imgpipe::MozJpegOptions;
use imgpipe::NativeColorSpace;

fn to_mozjpeg_colorspace(n: NativeColorSpace) -> mozjpeg::ColorSpace {
    match n {
        NativeColorSpace::Grayscale => mozjpeg::ColorSpace::JCS_GRAYSCALE,
        NativeColorSpace::Rgb => mozjpeg::ColorSpace::JCS_RGB,
        NativeColorSpace::Ycbcr => mozjpeg::ColorSpace::JCS_YCbCr,
        NativeColorSpace::Cmyk => mozjpeg::ColorSpace::JCS_CMYK,
        NativeColorSpace::Ycck => mozjpeg::ColorSpace::JCS_YCCK,
        NativeColorSpace::ExtRgb => mozjpeg::ColorSpace::JCS_EXT_RGB,
        NativeColorSpace::ExtRgba => mozjpeg::ColorSpace::JCS_EXT_RGBA,
        NativeColorSpace::ExtBgr => mozjpeg::ColorSpace::JCS_EXT_BGR,
        NativeColorSpace::ExtBgra => mozjpeg::ColorSpace::JCS_EXT_BGRA,
        NativeColorSpace::ExtArgb => mozjpeg::ColorSpace::JCS_EXT_ARGB,
        _ => mozjpeg::ColorSpace::JCS_UNKNOWN,
    }
}

fn run_plan(enc: &MozJpegEncoder, img: &CanonicalImage) -> Vec<u8> {
    let plan = enc.encode_plan(img);
    let mut comp = mozjpeg::Compress::new(to_mozjpeg_colorspace(plan.pixel_format));
    comp.set_size(plan.width, plan.height);
    comp.set_quality(plan.quality as f32);
    if plan.progressive {
        comp.set_progressive_mode();
    }
    comp.set_optimize_coding(plan.optimize_coding);
    comp.set_smoothing_factor(plan.smoothing);
    comp.set_color_space(to_mozjpeg_colorspace(plan.output_color_space));
    comp.set_use_scans_in_trellis(plan.trellis_multipass);
    if let Some(sb) = plan.chroma_subsample {
        comp.set_chroma_sampling_pixel_sizes((sb, sb), (sb, sb));
    }
    let mut started = comp.start_compress(Vec::new()).unwrap();
    started.write_scanlines(&plan.data).unwrap();
    started.finish().unwrap()
}

#[test]
fn plan_drives_native_encoder_and_output_decodes() {
    let img = CanonicalImage::from_u8(
        vec![
            255, 0, 0, 0, 255, 0, 0, 0, 255, 10, 20, 30, 200, 100, 50, 5, 5, 5, 250, 250, 250,
            128, 128, 128,
        ],
        4,
        2,
        ColorSpace::RGB,
    );
    let enc = MozJpegEncoder::new_with_options(MozJpegOptions {
        quality: 90,
        ..Default::default()
    });
    let plan = enc.encode_plan(&img);
    assert_eq!(plan.pixel_format, NativeColorSpace::Rgb);
    assert_eq!(plan.output_color_space, NativeColorSpace::Ycbcr);
    assert!(!plan.colorspace_overridden);
    let bytes = run_plan(&enc, &img);
    assert_eq!(&bytes[0..2], &[0xFF, 0xD8]);
    match imgpipe::decode(&bytes, None) {
        DecodeStep::Image(back) => {
            assert_eq!((back.width, back.height), (4, 2));
        }
        _ => panic!("the native encoder's output must decode"),
    }
}

#[test]
fn grayscale_input_overrides_requested_output() {
    let img = CanonicalImage::from_u8(vec![0, 64, 128, 255], 2, 2, ColorSpace::Luma);
    let enc = MozJpegEncoder::new();
    let plan = enc.encode_plan(&img);
    assert_eq!(plan.pixel_format, NativeColorSpace::Grayscale);
    assert_eq!(plan.output_color_space, NativeColorSpace::Grayscale);
    assert!(plan.colorspace_overridden);
    let bytes = run_plan(&enc, &img);
    match imgpipe::decode(&bytes, None) {
        DecodeStep::Image(back) => {
            // The universal decoder expands grayscale JPEG output to RGB.
            assert_eq!((back.width, back.height), (2, 2));
        }
        _ => panic!("the grayscale output must decode"),
    }
}
