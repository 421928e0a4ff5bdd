use imgpipe::BitDepth;
use imgpipe::CanonicalImage;
use imgpipe::ColorSpace;
use imgpipe::ConfigError;
use imgpipe::DecodeError;
use imgpipe::DecodeStep;
use imgpipe::EncoderChoice;
use imgpipe::EncoderSubOptions;
use imgpipe::NativeColorSpace;
use imgpipe::Operation;
use imgpipe::OperationError;
use imgpipe::OutputColorChoice;
use imgpipe::ResizeFilter;
use imgpipe::ResizeRequest;
use imgpipe::ResolvedConfig;
use imgpipe::SpecializedKind;
use imgpipe::TableFamily;
use imgpipe::canonical_of_native;
use imgpipe::forced_output;
use imgpipe::is_webp_ext;
use imgpipe::looks_like_avif;
use imgpipe::luma_base;
use imgpipe::chroma_base;
use imgpipe::mozjpeg_options;
use imgpipe::needs_decode_transform;
use imgpipe::operations;
use imgpipe::resolve_specialized;
use imgpipe::scaled_entry;
use imgpipe::scaled_table;

fn sub_options(quality: Option<u8>) -> EncoderSubOptions {
    EncoderSubOptions {
        quality,
        chroma_quality: None,
        baseline: false,
        no_optimize_coding: false,
        smoothing: None,
        colorspace: OutputColorChoice::Ycbcr,
        multipass: false,
        subsample: None,
        qtable: None,
        progressive: false,
    }
}

#[test]
fn channels_per_colorspace() {
    assert_eq!(ColorSpace::Luma.channels(), 1);
    assert_eq!(ColorSpace::RGB.channels(), 3);
    assert_eq!(ColorSpace::RGBA.channels(), 4);
    assert_eq!(ColorSpace::YCCK.channels(), 4);
}

#[test]
fn normalizer_maps_problem_layouts_to_unknown() {
    assert_eq!(canonical_of_native(NativeColorSpace::ExtXbgr), ColorSpace::Unknown);
    assert_eq!(canonical_of_native(NativeColorSpace::ExtXrgb), ColorSpace::Unknown);
    assert_eq!(canonical_of_native(NativeColorSpace::Rgb565), ColorSpace::Unknown);
    assert_eq!(canonical_of_native(NativeColorSpace::Grayscale), ColorSpace::Luma);
    assert_eq!(canonical_of_native(NativeColorSpace::ExtBgrx), ColorSpace::BGRA);
}

#[test]
fn decode_transform_set() {
    assert!(needs_decode_transform(NativeColorSpace::ExtXbgr));
    assert!(needs_decode_transform(NativeColorSpace::ExtAbgr));
    assert!(needs_decode_transform(NativeColorSpace::Rgb565));
    assert!(!needs_decode_transform(NativeColorSpace::Rgb));
    assert!(!needs_decode_transform(NativeColorSpace::Ycbcr));
}

#[test]
fn grayscale_input_forces_output() {
    let (used, overridden) = forced_output(NativeColorSpace::Grayscale, NativeColorSpace::ExtRgb);
    assert_eq!(used, NativeColorSpace::Grayscale);
    assert!(overridden);
    let (used2, overridden2) = forced_output(NativeColorSpace::Rgb, NativeColorSpace::Ycbcr);
    assert_eq!(used2, NativeColorSpace::Ycbcr);
    assert!(!overridden2);
    let (used3, overridden3) = forced_output(NativeColorSpace::Cmyk, NativeColorSpace::Cmyk);
    assert_eq!(used3, NativeColorSpace::Cmyk);
    assert!(!overridden3);
}

#[test]
fn flat_table_scaling_exact_values() {
    let flat = luma_base(TableFamily::Flat);
    assert_eq!(flat.len(), 64);
    assert!(flat.iter().all(|&v| v == 16));
    assert!(scaled_table(&flat, 22).iter().all(|&v| v == 36));
    assert!(scaled_table(&flat, 75).iter().all(|&v| v == 8));
    assert!(scaled_table(&flat, 95).iter().all(|&v| v == 2));
    assert!(scaled_table(&flat, 100).iter().all(|&v| v == 1));
}

#[test]
fn scaling_at_fifty_is_identity_within_range() {
    let paw = luma_base(TableFamily::PetersonAhumadaWatson);
    let scaled = scaled_table(&paw, 50);
    assert_eq!(scaled, paw);
}

#[test]
fn scaling_clamps_into_encodable_range() {
    // The largest base step size of the catalog, at the lowest quality.
    assert_eq!(scaled_entry(418, 1), 255);
    // Everything collapses to the minimum step size at full quality.
    assert_eq!(scaled_entry(418, 100), 1);
}

#[test]
fn scaling_is_monotone_between_fifty_and_hundred() {
    for family in [
        TableFamily::AnnexK,
        TableFamily::Msssim,
        TableFamily::NRobidoux,
        TableFamily::Psnrhvs,
        TableFamily::WatsonTaylorBorthwick,
    ] {
        let base = luma_base(family);
        let high = scaled_table(&base, 100);
        let low = scaled_table(&base, 50);
        for i in 0..64 {
            assert!(high[i] <= low[i]);
        }
    }
}

#[test]
fn chroma_quality_defaults_to_quality() {
    let mut o = sub_options(Some(80));
    o.qtable = Some(TableFamily::Flat);
    let opts = mozjpeg_options(&o);
    assert_eq!(opts.quality, 80);
    assert_eq!(opts.chroma_quality, 80);
    assert_eq!(opts.luma_qtable, opts.chroma_qtable);
}

#[test]
fn chroma_quality_override_reaches_chroma_table() {
    let mut o = sub_options(Some(75));
    o.chroma_quality = Some(22);
    o.qtable = Some(TableFamily::Flat);
    let opts = mozjpeg_options(&o);
    assert_eq!(opts.quality, 75);
    assert_eq!(opts.chroma_quality, 22);
    // Flat base 16: quality 75 scales to 8, quality 22 to 36.
    assert!(opts.luma_qtable.as_ref().unwrap().iter().all(|&v| v == 8));
    assert!(opts.chroma_qtable.as_ref().unwrap().iter().all(|&v| v == 36));
}

#[test]
fn mozjpeg_option_flags() {
    let mut o = sub_options(Some(60));
    o.baseline = true;
    o.no_optimize_coding = true;
    o.smoothing = Some(7);
    o.multipass = true;
    o.subsample = Some(2);
    o.colorspace = OutputColorChoice::Grayscale;
    let opts = mozjpeg_options(&o);
    assert!(!opts.progressive);
    assert!(!opts.optimize_coding);
    assert_eq!(opts.smoothing, 7);
    assert!(opts.trellis_multipass);
    assert_eq!(opts.chroma_subsample, Some(2));
    assert_eq!(opts.color_space, NativeColorSpace::Grayscale);
    assert!(opts.luma_qtable.is_none());
    assert!(opts.chroma_qtable.is_none());
}

#[test]
fn annex_k_separates_luma_and_chroma() {
    let luma = luma_base(TableFamily::AnnexK);
    let chroma = chroma_base(TableFamily::AnnexK);
    assert_eq!(luma[0], 16);
    assert_eq!(chroma[0], 17);
    assert_ne!(luma, chroma);
    let single = luma_base(TableFamily::NRobidoux);
    assert_eq!(single, chroma_base(TableFamily::NRobidoux));
}

#[test]
fn pipeline_orders_by_slot_index() {
    let cfg = ResolvedConfig {
        resize: vec![(2, ResizeRequest::Dimensions { width: 100, height: 50 })],
        filter: None,
        quantization: vec![(0, 128)],
        dithering: None,
    };
    let entries = operations(&cfg, 640, 480);
    assert_eq!(entries.len(), 2);
    assert_eq!(entries[0].0, 0);
    assert!(matches!(entries[0].1, Operation::Quantize { colors: 128, dithering: None }));
    assert_eq!(entries[1].0, 2);
    assert!(matches!(
        entries[1].1,
        Operation::Resize { width: 100, height: 50, filter: ResizeFilter::Lanczos3 }
    ));
}

#[test]
fn swapping_slot_indices_swaps_application_order() {
    let cfg = ResolvedConfig {
        resize: vec![(0, ResizeRequest::Dimensions { width: 100, height: 50 })],
        filter: None,
        quantization: vec![(2, 128)],
        dithering: None,
    };
    let entries = operations(&cfg, 640, 480);
    assert_eq!(entries.len(), 2);
    assert!(matches!(entries[0].1, Operation::Resize { .. }));
    assert!(matches!(entries[1].1, Operation::Quantize { .. }));
}

#[test]
fn percentage_resize_resolves_against_current_dimensions() {
    let cfg = ResolvedConfig {
        resize: vec![(0, ResizeRequest::Percentage { percent: 50 })],
        filter: Some(ResizeFilter::Nearest),
        quantization: vec![],
        dithering: Some(40),
    };
    let entries = operations(&cfg, 640, 480);
    assert_eq!(entries.len(), 1);
    assert!(matches!(
        entries[0].1,
        Operation::Resize { width: 320, height: 240, filter: ResizeFilter::Nearest }
    ));
}

#[test]
fn interleaved_kinds_keep_global_order() {
    let cfg = ResolvedConfig {
        resize: vec![
            (5, ResizeRequest::Percentage { percent: 200 }),
            (1, ResizeRequest::Dimensions { width: 8, height: 8 }),
        ],
        filter: None,
        quantization: vec![(3, 16), (0, 4)],
        dithering: Some(100),
    };
    let entries = operations(&cfg, 10, 10);
    let indices: Vec<usize> = entries.iter().map(|e| e.0).collect();
    assert_eq!(indices, vec![0, 1, 3, 5]);
    assert!(matches!(entries[0].1, Operation::Quantize { colors: 4, .. }));
    assert!(matches!(entries[1].1, Operation::Resize { width: 8, height: 8, .. }));
    assert!(matches!(entries[2].1, Operation::Quantize { colors: 16, .. }));
    assert!(matches!(entries[3].1, Operation::Resize { width: 20, height: 20, .. }));
}

#[test]
fn pipeline_build_is_deterministic() {
    let cfg = ResolvedConfig {
        resize: vec![(4, ResizeRequest::Percentage { percent: 25 })],
        filter: None,
        quantization: vec![(1, 64)],
        dithering: None,
    };
    let a = operations(&cfg, 100, 100);
    let b = operations(&cfg, 100, 100);
    assert_eq!(a, b);
}

#[test]
fn avif_sniff_accepts_ftyp_brands() {
    let mut avif = vec![0u8, 0, 0, 32];
    avif.extend_from_slice(b"ftypavif");
    avif.extend_from_slice(&[0u8; 8]);
    assert!(looks_like_avif(&avif));
    let mut avis = vec![0u8, 0, 0, 32];
    avis.extend_from_slice(b"ftypavis");
    assert!(looks_like_avif(&avis));
    assert!(!looks_like_avif(b"ftypavif"));
    assert!(!looks_like_avif(&[0u8; 32]));
}

#[test]
fn webp_extension_hint_ignores_case() {
    assert!(is_webp_ext(b"webp"));
    assert!(is_webp_ext(b"WeBp"));
    assert!(is_webp_ext(b"WEBP"));
    assert!(!is_webp_ext(b"webq"));
    assert!(!is_webp_ext(b"web"));
}

#[test]
fn resolve_specialized_keeps_success_and_failure() {
    let img = CanonicalImage::from_u8(vec![1, 2, 3], 1, 1, ColorSpace::RGB);
    let ok = resolve_specialized(Ok(img));
    assert!(ok.is_ok());
    let err = resolve_specialized(Err(DecodeError::NativeCodecFailure));
    assert_eq!(err.unwrap_err(), DecodeError::NativeCodecFailure);
    let malformed = resolve_specialized(Err(DecodeError::MalformedInput));
    assert_eq!(malformed.unwrap_err(), DecodeError::MalformedInput);
}

#[test]
fn resolve_specialized_rejects_misshapen_buffers() {
    let bad = CanonicalImage {
        width: 2,
        height: 2,
        colorspace: ColorSpace::RGB,
        depth: BitDepth::Eight,
        channels: 3,
        data: vec![0u8; 5],
    };
    assert!(!bad.check_wf());
    let r = resolve_specialized(Ok(bad));
    assert_eq!(r.unwrap_err(), DecodeError::MalformedInput);
}

#[test]
fn sixteen_bit_flatten_keeps_high_bytes() {
    let img = CanonicalImage::from_u16_bytes(
        vec![0x01, 0xAB, 0x02, 0xCD, 0x03, 0xEF],
        1,
        1,
        ColorSpace::RGB,
    );
    assert_eq!(img.flatten_to_u8(), vec![0xAB, 0xCD, 0xEF]);
    let eight = CanonicalImage::from_u8(vec![9, 8, 7], 1, 1, ColorSpace::RGB);
    assert_eq!(eight.flatten_to_u8(), vec![9, 8, 7]);
}

#[test]
fn error_descriptions_are_nonempty() {
    assert!(!DecodeError::UnsupportedFormat.describe().is_empty());
    assert!(!DecodeError::MalformedInput.describe().is_empty());
    assert!(!DecodeError::NativeCodecFailure.describe().is_empty());
}

#[test]
fn encoder_dispatch_by_name() {
    let o = sub_options(Some(80));
    let (choice, ext) = imgpipe::encoder(Some(("mozjpeg", &o))).unwrap();
    assert_eq!(ext, "jpg");
    match choice {
        EncoderChoice::MozJpeg(enc) => {
            assert_eq!(enc.options.quality, 80);
            assert_eq!(enc.options.chroma_quality, 80);
            assert!(enc.options.progressive);
            assert!(enc.options.optimize_coding);
        }
        _ => panic!("expected the advanced JPEG encoder"),
    }
    let (qoi, qext) = imgpipe::encoder(Some(("qoi", &o))).unwrap();
    assert!(matches!(qoi, EncoderChoice::Qoi));
    assert_eq!(qext, "qoi");
    let (ff, fext) = imgpipe::encoder(Some(("farbfeld", &o))).unwrap();
    assert!(matches!(ff, EncoderChoice::Farbfeld));
    assert_eq!(fext, "ff");
}

#[test]
fn unknown_encoder_and_no_encoder_are_distinct() {
    let o = sub_options(Some(80));
    match imgpipe::encoder(Some(("gif", &o))) {
        Err(ConfigError::UnknownEncoder(name)) => assert_eq!(name, b"gif".to_vec()),
        _ => panic!("expected the unknown-encoder error"),
    }
    match imgpipe::encoder(None) {
        Err(e) => assert_eq!(e, ConfigError::NoEncoderSelected),
        Ok(_) => panic!("an absent selection must be rejected"),
    }
}

#[test]
fn fallback_on_avif_magic() {
    let mut bytes = vec![0u8, 0, 0, 32];
    bytes.extend_from_slice(b"ftypavif");
    bytes.extend_from_slice(&[0u8; 20]);
    match imgpipe::decode(&bytes, None) {
        DecodeStep::TrySpecialized(SpecializedKind::Avif) => {}
        other => panic!("expected the avif fallback, got {:?}", step_name(&other)),
    }
}

#[test]
fn fallback_on_webp_extension() {
    let bytes = vec![0xAAu8; 32];
    match imgpipe::decode(&bytes, Some(b"WEBP")) {
        DecodeStep::TrySpecialized(SpecializedKind::Webp) => {}
        other => panic!("expected the webp fallback, got {:?}", step_name(&other)),
    }
}

#[test]
fn unrecognized_input_is_unsupported_format() {
    let bytes = vec![0xAAu8; 32];
    match imgpipe::decode(&bytes, Some(b"bin")) {
        DecodeStep::Failed(e) => assert_eq!(e, DecodeError::UnsupportedFormat),
        other => panic!("expected a terminal failure, got {:?}", step_name(&other)),
    }
}

#[test]
fn recognized_but_malformed_input_is_terminal() {
    // A PNG signature followed by garbage: the format is recognized, the
    // content is invalid, and no fallback is consulted.
    let mut bytes = vec![0x89u8, 0x50, 0x4E, 0x47, 0x0D, 0x0A, 0x1A, 0x0A];
    bytes.extend_from_slice(&[0x55u8; 24]);
    match imgpipe::decode(&bytes, Some(b"webp")) {
        DecodeStep::Failed(e) => assert_eq!(e, DecodeError::MalformedInput),
        other => panic!("expected malformed input, got {:?}", step_name(&other)),
    }
}

fn step_name(step: &DecodeStep) -> &'static str {
    match step {
        DecodeStep::Image(_) => "an image",
        DecodeStep::TrySpecialized(SpecializedKind::Avif) => "the avif fallback",
        DecodeStep::TrySpecialized(SpecializedKind::Webp) => "the webp fallback",
        DecodeStep::Failed(DecodeError::UnsupportedFormat) => "unsupported format",
        DecodeStep::Failed(DecodeError::MalformedInput) => "malformed input",
        DecodeStep::Failed(DecodeError::NativeCodecFailure) => "a native codec failure",
    }
}

#[test]
fn inapplicable_operations_fail_with_classified_errors() {
    let quantize = Operation::Quantize { colors: 16, dithering: None };
    assert_eq!(
        quantize.check_applicable(ColorSpace::RGB, BitDepth::Eight),
        Err(OperationError::UnsupportedColorspace)
    );
    assert_eq!(
        quantize.check_applicable(ColorSpace::RGBA, BitDepth::Sixteen),
        Err(OperationError::UnsupportedBitDepth)
    );
    assert_eq!(quantize.check_applicable(ColorSpace::RGBA, BitDepth::Eight), Ok(()));
    let resize = Operation::Resize { width: 4, height: 4, filter: ResizeFilter::Lanczos3 };
    assert_eq!(
        resize.check_applicable(ColorSpace::RGB, BitDepth::FloatPerChannel),
        Err(OperationError::UnsupportedBitDepth)
    );
    assert_eq!(resize.check_applicable(ColorSpace::Luma, BitDepth::Eight), Ok(()));
}
