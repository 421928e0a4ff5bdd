//! The canonical colorspace model and the normalization maps between a
//! native JPEG library's colorspace taxonomy and the canonical one.

use vstd::prelude::*;

verus! {

/// The system's canonical colorspace enumeration.
#[derive(Clone, Copy, PartialEq, Eq, Structural, Debug)]
pub enum ColorSpace {
    Luma,
    RGB,
    RGBA,
    BGR,
    BGRA,
    ARGB,
    YCbCr,
    YCCK,
    CMYK,
    Unknown,
}

impl ColorSpace {
    /// Number of channels a pixel of this colorspace occupies.
    pub open spec fn spec_channels(self) -> nat {
        match self {
            ColorSpace::Luma => 1,
            ColorSpace::RGB => 3,
            ColorSpace::RGBA => 4,
            ColorSpace::BGR => 3,
            ColorSpace::BGRA => 4,
            ColorSpace::ARGB => 4,
            ColorSpace::YCbCr => 3,
            ColorSpace::YCCK => 4,
            ColorSpace::CMYK => 4,
            ColorSpace::Unknown => 1,
        }
    }

    /// Number of channels a pixel of this colorspace occupies.
    pub fn channels(self) -> (r: usize)
        ensures
            r == self.spec_channels(),
            1 <= r <= 4,
    {
        match self {
            ColorSpace::Luma => 1,
            ColorSpace::RGB => 3,
            ColorSpace::RGBA => 4,
            ColorSpace::BGR => 3,
            ColorSpace::BGRA => 4,
            ColorSpace::ARGB => 4,
            ColorSpace::YCbCr => 3,
            ColorSpace::YCCK => 4,
            ColorSpace::CMYK => 4,
            ColorSpace::Unknown => 1,
        }
    }
}

/// The pixel-layout taxonomy of the native JPEG codec libraries
/// (the `JCS_*` constants), modelled as a closed enumeration.
#[derive(Clone, Copy, PartialEq, Eq, Structural, Debug)]
pub enum NativeColorSpace {
    Grayscale,
    Rgb,
    Ycbcr,
    Cmyk,
    Ycck,
    ExtRgb,
    ExtRgbx,
    ExtBgr,
    ExtBgrx,
    ExtXbgr,
    ExtXrgb,
    ExtRgba,
    ExtBgra,
    ExtAbgr,
    ExtArgb,
    Rgb565,
    NativeUnknown,
}

/// The canonical colorspace that a native decoder's output layout maps to.
/// Layouts with no canonical equivalent map to `Unknown` rather than failing,
/// leaving the policy decision to downstream consumers.
pub open spec fn spec_canonical_of_native(n: NativeColorSpace) -> ColorSpace {
    match n {
        NativeColorSpace::Grayscale => ColorSpace::Luma,
        NativeColorSpace::Rgb => ColorSpace::RGB,
        NativeColorSpace::Ycbcr => ColorSpace::YCbCr,
        NativeColorSpace::Cmyk => ColorSpace::CMYK,
        NativeColorSpace::Ycck => ColorSpace::YCCK,
        NativeColorSpace::ExtRgb => ColorSpace::RGB,
        NativeColorSpace::ExtRgbx => ColorSpace::RGBA,
        NativeColorSpace::ExtBgr => ColorSpace::BGR,
        NativeColorSpace::ExtBgrx => ColorSpace::BGRA,
        NativeColorSpace::ExtXbgr => ColorSpace::Unknown,
        NativeColorSpace::ExtXrgb => ColorSpace::Unknown,
        NativeColorSpace::ExtRgba => ColorSpace::RGBA,
        NativeColorSpace::ExtBgra => ColorSpace::BGRA,
        NativeColorSpace::ExtAbgr => ColorSpace::Unknown,
        NativeColorSpace::ExtArgb => ColorSpace::ARGB,
        NativeColorSpace::Rgb565 => ColorSpace::Unknown,
        NativeColorSpace::NativeUnknown => ColorSpace::Unknown,
    }
}

/// Normalize a native decoder's output layout into the canonical enumeration.
pub fn canonical_of_native(n: NativeColorSpace) -> (r: ColorSpace)
    ensures
        r == spec_canonical_of_native(n),
{
    match n {
        NativeColorSpace::Grayscale => ColorSpace::Luma,
        NativeColorSpace::Rgb => ColorSpace::RGB,
        NativeColorSpace::Ycbcr => ColorSpace::YCbCr,
        NativeColorSpace::Cmyk => ColorSpace::CMYK,
        NativeColorSpace::Ycck => ColorSpace::YCCK,
        NativeColorSpace::ExtRgb => ColorSpace::RGB,
        NativeColorSpace::ExtRgbx => ColorSpace::RGBA,
        NativeColorSpace::ExtBgr => ColorSpace::BGR,
        NativeColorSpace::ExtBgrx => ColorSpace::BGRA,
        NativeColorSpace::ExtXbgr => ColorSpace::Unknown,
        NativeColorSpace::ExtXrgb => ColorSpace::Unknown,
        NativeColorSpace::ExtRgba => ColorSpace::RGBA,
        NativeColorSpace::ExtBgra => ColorSpace::BGRA,
        NativeColorSpace::ExtAbgr => ColorSpace::Unknown,
        NativeColorSpace::ExtArgb => ColorSpace::ARGB,
        NativeColorSpace::Rgb565 => ColorSpace::Unknown,
        NativeColorSpace::NativeUnknown => ColorSpace::Unknown,
    }
}

/// The native layout an encoder is handed for a canonical colorspace.
pub open spec fn spec_native_of_canonical(c: ColorSpace) -> NativeColorSpace {
    match c {
        ColorSpace::RGB => NativeColorSpace::Rgb,
        ColorSpace::RGBA => NativeColorSpace::ExtRgba,
        ColorSpace::YCbCr => NativeColorSpace::Ycbcr,
        ColorSpace::Luma => NativeColorSpace::Grayscale,
        ColorSpace::YCCK => NativeColorSpace::Ycck,
        ColorSpace::CMYK => NativeColorSpace::Cmyk,
        ColorSpace::BGR => NativeColorSpace::ExtBgr,
        ColorSpace::BGRA => NativeColorSpace::ExtBgra,
        ColorSpace::ARGB => NativeColorSpace::ExtArgb,
        ColorSpace::Unknown => NativeColorSpace::NativeUnknown,
    }
}

/// Map a canonical colorspace to the native layout handed to the encoder.
pub fn native_of_canonical(c: ColorSpace) -> (r: NativeColorSpace)
    ensures
        r == spec_native_of_canonical(c),
{
    match c {
        ColorSpace::RGB => NativeColorSpace::Rgb,
        ColorSpace::RGBA => NativeColorSpace::ExtRgba,
        ColorSpace::YCbCr => NativeColorSpace::Ycbcr,
        ColorSpace::Luma => NativeColorSpace::Grayscale,
        ColorSpace::YCCK => NativeColorSpace::Ycck,
        ColorSpace::CMYK => NativeColorSpace::Cmyk,
        ColorSpace::BGR => NativeColorSpace::ExtBgr,
        ColorSpace::BGRA => NativeColorSpace::ExtBgra,
        ColorSpace::ARGB => NativeColorSpace::ExtArgb,
        ColorSpace::Unknown => NativeColorSpace::NativeUnknown,
    }
}

/// The native layouts a decoder cannot read raw scanlines from without
/// corrupting the output; an adapter must force an internal conversion
/// to a supported layout before extracting pixels.
pub open spec fn spec_needs_decode_transform(n: NativeColorSpace) -> bool {
    n == NativeColorSpace::ExtXbgr || n == NativeColorSpace::ExtXrgb
        || n == NativeColorSpace::ExtAbgr || n == NativeColorSpace::Rgb565
}

/// Whether a decode adapter must convert to a supported layout before
/// reading scanlines.
pub fn needs_decode_transform(n: NativeColorSpace) -> (r: bool)
    ensures
        r == spec_needs_decode_transform(n),
{
    matches!(
        n,
        NativeColorSpace::ExtXbgr | NativeColorSpace::ExtXrgb | NativeColorSpace::ExtAbgr
            | NativeColorSpace::Rgb565
    )
}

/// Whether an input layout forces the encoder's output colorspace to itself,
/// overriding whatever the user requested.
pub open spec fn spec_input_mandates_output(input: NativeColorSpace) -> bool {
    input == NativeColorSpace::Grayscale || input == NativeColorSpace::Cmyk
        || input == NativeColorSpace::Ycck
}

/// The output colorspace an encoder actually uses: grayscale, CMYK and YCCK
/// inputs force a matching output; any other input leaves the user's request
/// in effect.
pub open spec fn spec_forced_output(input: NativeColorSpace, requested: NativeColorSpace)
    -> NativeColorSpace {
    if spec_input_mandates_output(input) {
        input
    } else {
        requested
    }
}

/// Resolve the encoder's output colorspace. Returns the colorspace actually
/// used and whether the user's request was overridden (the caller reports an
/// override as an informational notice, not an error: the encode still
/// succeeds with a valid, if different-than-requested, result).
pub fn forced_output(input: NativeColorSpace, requested: NativeColorSpace)
    -> (r: (NativeColorSpace, bool))
    ensures
        r.0 == spec_forced_output(input, requested),
        r.1 == (r.0 != requested),
{
    let used = if matches!(
        input,
        NativeColorSpace::Grayscale | NativeColorSpace::Cmyk | NativeColorSpace::Ycck
    ) {
        input
    } else {
        requested
    };
    (used, used != requested)
}

} // verus!
