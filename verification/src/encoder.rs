//! The encoder configurator: a fixed lookup from codec name to a fully
//! populated, validated options value and the codec's canonical file
//! extension, including quantization-table synthesis and independent
//! luma/chroma quality scaling for the advanced JPEG encoder.

use vstd::prelude::*;
use vstd::string::StringSliceAdditionalSpecFns;

use zune_core::colorspace::ColorSpace as ZColor;
use zune_core::options::EncoderOptions;
use zune_image::codecs::ImageFormat;
use zune_image::image::Image;

use crate::color::ColorSpace;
use crate::color::NativeColorSpace;
use crate::color::spec_forced_output;
use crate::color::spec_native_of_canonical;
use crate::color::forced_output;
use crate::color::native_of_canonical;
use crate::error::ConfigError;
use crate::error::EncodeError;
use crate::image::BitDepth;
use crate::image::CanonicalImage;
use crate::qtable::TableFamily;
use crate::qtable::chroma_base;
use crate::qtable::luma_base;
use crate::qtable::scaled_table;
use crate::qtable::spec_chroma_base;
use crate::qtable::spec_luma_base;
use crate::qtable::spec_scaled_entry;

verus! {

/// The output codecs the configurator can dispatch to.
#[derive(Clone, Copy, PartialEq, Eq, Structural, Debug)]
pub enum Codec {
    Farbfeld,
    Jpeg,
    JpegXl,
    MozJpeg,
    Png,
    Ppm,
    Qoi,
}

/// The closed set of output colorspace names the advanced JPEG encoder
/// accepts; any other request is rejected upstream and never reaches the
/// configurator.
#[derive(Clone, Copy, PartialEq, Eq, Structural, Debug)]
pub enum OutputColorChoice {
    Ycbcr,
    Rgb,
    Grayscale,
}

/// The native layout an output colorspace choice stands for.
pub open spec fn spec_native_of_choice(c: OutputColorChoice) -> NativeColorSpace {
    match c {
        OutputColorChoice::Ycbcr => NativeColorSpace::Ycbcr,
        OutputColorChoice::Rgb => NativeColorSpace::ExtRgb,
        OutputColorChoice::Grayscale => NativeColorSpace::Grayscale,
    }
}

/// Map an output colorspace choice to its native layout.
pub fn native_of_choice(c: OutputColorChoice) -> (r: NativeColorSpace)
    ensures
        r == spec_native_of_choice(c),
{
    match c {
        OutputColorChoice::Ycbcr => NativeColorSpace::Ycbcr,
        OutputColorChoice::Rgb => NativeColorSpace::ExtRgb,
        OutputColorChoice::Grayscale => NativeColorSpace::Grayscale,
    }
}

/// The resolved sub-options of the chosen codec, as the configuration layer
/// hands them over.
pub struct EncoderSubOptions {
    /// Luma quality; required by the advanced JPEG encoder.
    pub quality: Option<u8>,
    /// Chroma quality; defaults to the luma quality when unset.
    pub chroma_quality: Option<u8>,
    /// Request baseline (non-progressive) output.
    pub baseline: bool,
    /// Switch Huffman-table optimization off.
    pub no_optimize_coding: bool,
    /// Smoothing factor, passed through unscaled; defaults to zero.
    pub smoothing: Option<u8>,
    /// The requested output colorspace.
    pub colorspace: OutputColorChoice,
    /// Use scans in trellis quantization.
    pub multipass: bool,
    /// Chroma subsampling factor, when requested.
    pub subsample: Option<u8>,
    /// The named quantization-table family, when requested.
    pub qtable: Option<TableFamily>,
    /// Progressive output for the baseline JPEG encoder.
    pub progressive: bool,
}

/// Advanced options for the native JPEG encoder. Qualities are integers in
/// 1..=100; the quantization tables, when present, are always paired and
/// already scaled — the luma table by `quality`, the chroma table by
/// `chroma_quality`.
pub struct MozJpegOptions {
    pub quality: u8,
    pub chroma_quality: u8,
    pub progressive: bool,
    pub optimize_coding: bool,
    pub smoothing: u8,
    pub color_space: NativeColorSpace,
    pub trellis_multipass: bool,
    pub chroma_subsample: Option<u8>,
    pub luma_qtable: Option<Vec<u16>>,
    pub chroma_qtable: Option<Vec<u16>>,
}

/// The default tunables: quality 75 on both channels, progressive,
/// optimized coding, no smoothing, YCbCr output, no trellis multipass, no
/// subsampling override, library-default quantization tables.
pub open spec fn spec_default_options(o: MozJpegOptions) -> bool {
    &&& o.quality == 75
    &&& o.chroma_quality == 75
    &&& o.progressive
    &&& o.optimize_coding
    &&& o.smoothing == 0
    &&& o.color_space == NativeColorSpace::Ycbcr
    &&& !o.trellis_multipass
    &&& o.chroma_subsample is None
    &&& o.luma_qtable is None
    &&& o.chroma_qtable is None
}

impl Default for MozJpegOptions {
    /// The default tunables.
    fn default() -> (r: Self)
        ensures
            spec_default_options(r),
    {
        MozJpegOptions {
            quality: 75,
            chroma_quality: 75,
            progressive: true,
            optimize_coding: true,
            smoothing: 0,
            color_space: NativeColorSpace::Ycbcr,
            trellis_multipass: false,
            chroma_subsample: None,
            luma_qtable: None,
            chroma_qtable: None,
        }
    }
}

/// The advanced JPEG encoder: holds its resolved options; the native
/// invocation itself happens behind the crash-containment boundary outside
/// this library.
pub struct MozJpegEncoder {
    pub options: MozJpegOptions,
}

impl Default for MozJpegEncoder {
    /// An encoder carrying the full default options.
    fn default() -> (r: Self)
        ensures
            spec_default_options(r.options),
    {
        MozJpegEncoder { options: Default::default() }
    }
}

/// Did the sub-options pass the range validation the configurator relies
/// on? Scaling is undefined at quality zero, so qualities are 1..=100.
pub open spec fn spec_mozjpeg_suboptions_ok(o: EncoderSubOptions) -> bool {
    &&& o.quality matches Some(q) && 1 <= q <= 100
    &&& match o.chroma_quality {
        Some(c) => 1 <= c <= 100,
        None => true,
    }
    &&& match o.smoothing {
        Some(s) => s <= 100,
        None => true,
    }
}

/// The chroma quality the options derive: the explicit override when given,
/// the luma quality otherwise.
pub open spec fn spec_chroma_quality(o: EncoderSubOptions) -> u8 {
    match o.chroma_quality {
        Some(c) => c,
        None => o.quality->0,
    }
}

impl MozJpegEncoder {
    /// A new encoder carrying the full default options.
    pub fn new() -> (r: MozJpegEncoder)
        ensures
            spec_default_options(r.options),
    {
        Default::default()
    }

    /// A new encoder with the given options.
    pub fn new_with_options(options: MozJpegOptions) -> (r: MozJpegEncoder)
        ensures
            r.options == options,
    {
        MozJpegEncoder { options }
    }

    /// The adapter's name.
    pub fn name(&self) -> (r: &'static str) {
        "mozjpeg-encoder"
    }

    /// The canonical colorspaces this encoder accepts.
    pub fn supported_colorspaces(&self) -> (r: Vec<ColorSpace>)
        ensures
            r@ == seq![
                ColorSpace::Luma, ColorSpace::RGBA, ColorSpace::RGB, ColorSpace::YCCK,
                ColorSpace::CMYK, ColorSpace::BGR, ColorSpace::BGRA, ColorSpace::ARGB,
                ColorSpace::YCbCr,
            ],
    {
        let r: Vec<ColorSpace> = vec![
            ColorSpace::Luma, ColorSpace::RGBA, ColorSpace::RGB, ColorSpace::YCCK,
            ColorSpace::CMYK, ColorSpace::BGR, ColorSpace::BGRA, ColorSpace::ARGB,
            ColorSpace::YCbCr,
        ];
        assert(r@ =~= seq![
            ColorSpace::Luma, ColorSpace::RGBA, ColorSpace::RGB, ColorSpace::YCCK,
            ColorSpace::CMYK, ColorSpace::BGR, ColorSpace::BGRA, ColorSpace::ARGB,
            ColorSpace::YCbCr,
        ]);
        r
    }

    /// The working depth chosen for an input depth.
    pub fn default_depth(&self, depth: BitDepth) -> (r: BitDepth)
        ensures
            r == depth.spec_default_depth(),
    {
        depth.default_depth()
    }
}

/// What the advanced JPEG options derived from given sub-options must hold:
/// chroma quality defaults to the luma quality; progressive unless baseline
/// was asked; optimized coding unless switched off; smoothing defaults to
/// zero; and a named table family yields both variants, the luma table
/// scaled by the luma quality and the chroma table — independently — by the
/// chroma quality.
pub open spec fn spec_mozjpeg_options_match(o: EncoderSubOptions, r: MozJpegOptions) -> bool {
    &&& r.quality == o.quality->0
    &&& r.chroma_quality == spec_chroma_quality(o)
    &&& r.progressive == !o.baseline
    &&& r.optimize_coding == !o.no_optimize_coding
    &&& r.smoothing == (match o.smoothing {
        Some(s) => s,
        None => 0u8,
    })
    &&& r.color_space == spec_native_of_choice(o.colorspace)
    &&& r.trellis_multipass == o.multipass
    &&& r.chroma_subsample == o.subsample
    &&& match o.qtable {
            None => r.luma_qtable is None && r.chroma_qtable is None,
            Some(f) => {
                &&& r.luma_qtable matches Some(lt) && lt@.len() == spec_luma_base(f).len()
                    && (forall|i: int| 0 <= i < lt@.len() ==> #[trigger] lt@[i]
                        == spec_scaled_entry(spec_luma_base(f)[i] as int, r.quality as int))
                &&& r.chroma_qtable matches Some(ct) && ct@.len() == spec_chroma_base(f).len()
                    && (forall|i: int| 0 <= i < ct@.len() ==> #[trigger] ct@[i]
                        == spec_scaled_entry(
                            spec_chroma_base(f)[i] as int,
                            r.chroma_quality as int,
                        ))
            },
        }
}

/// Build the advanced JPEG options from the codec's sub-options.
pub fn mozjpeg_options(o: &EncoderSubOptions) -> (r: MozJpegOptions)
    requires
        spec_mozjpeg_suboptions_ok(*o),
    ensures
        spec_mozjpeg_options_match(*o, r),
{
    let quality = match o.quality {
        Some(q) => q,
        None => 0,
    };
    let chroma_quality = match o.chroma_quality {
        Some(c) => c,
        None => quality,
    };
    let (luma_qtable, chroma_qtable): (Option<Vec<u16>>, Option<Vec<u16>>) = match o.qtable {
        Some(f) => {
            let lb = luma_base(f);
            let cb = chroma_base(f);
            (Some(scaled_table(&lb, quality)), Some(scaled_table(&cb, chroma_quality)))
        }
        None => (None, None),
    };
    MozJpegOptions {
        quality,
        chroma_quality,
        progressive: !o.baseline,
        optimize_coding: !o.no_optimize_coding,
        smoothing: match o.smoothing {
            Some(s) => s,
            None => 0,
        },
        color_space: native_of_choice(o.colorspace),
        trellis_multipass: o.multipass,
        chroma_subsample: o.subsample,
        luma_qtable,
        chroma_qtable,
    }
}

/// Options for the baseline JPEG encoder.
#[derive(Clone, Copy, PartialEq, Eq, Structural, Debug)]
pub struct JpegOptions {
    pub quality: Option<u8>,
    pub progressive: bool,
}

/// A configured encoder, ready to consume one canonical image.
pub enum EncoderChoice {
    Farbfeld,
    Jpeg(JpegOptions),
    JpegXl,
    MozJpeg(MozJpegEncoder),
    Png,
    Ppm,
    Qoi,
}

/// The codec a recognized encoder name denotes. The byte values spell
/// `farbfeld`, `jpeg`, `jpeg_xl`, `mozjpeg`, `png`, `ppm` and `qoi`.
pub open spec fn spec_codec_of_name(name: Seq<u8>) -> Option<Codec> {
    if name == seq![102u8, 97, 114, 98, 102, 101, 108, 100] {
        Some(Codec::Farbfeld)
    } else if name == seq![106u8, 112, 101, 103] {
        Some(Codec::Jpeg)
    } else if name == seq![106u8, 112, 101, 103, 95, 120, 108] {
        Some(Codec::JpegXl)
    } else if name == seq![109u8, 111, 122, 106, 112, 101, 103] {
        Some(Codec::MozJpeg)
    } else if name == seq![112u8, 110, 103] {
        Some(Codec::Png)
    } else if name == seq![112u8, 112, 109] {
        Some(Codec::Ppm)
    } else if name == seq![113u8, 111, 105] {
        Some(Codec::Qoi)
    } else {
        None
    }
}

/// Are two byte slices equal?
fn bytes_eq(a: &[u8], b: &[u8]) -> (r: bool)
    ensures
        r == (a@ == b@),
{
    if a.len() != b.len() {
        proof {
            assert(a@ != b@);
        }
        return false;
    }
    let n = a.len();
    let mut i: usize = 0;
    while i < n
        invariant
            0 <= i <= n,
            n == a@.len(),
            n == b@.len(),
            forall|j: int| 0 <= j < i ==> a@[j] == b@[j],
        decreases n - i,
    {
        if a[i] != b[i] {
            return false;
        }
        i = i + 1;
    }
    proof {
        assert(a@ =~= b@);
    }
    true
}

/// Recognize an encoder name.
pub fn codec_of_name(name: &[u8]) -> (r: Option<Codec>)
    ensures
        r == spec_codec_of_name(name@),
{
    let farbfeld: Vec<u8> = vec![102u8, 97, 114, 98, 102, 101, 108, 100];
    let jpeg: Vec<u8> = vec![106u8, 112, 101, 103];
    let jpeg_xl: Vec<u8> = vec![106u8, 112, 101, 103, 95, 120, 108];
    let mozjpeg: Vec<u8> = vec![109u8, 111, 122, 106, 112, 101, 103];
    let png: Vec<u8> = vec![112u8, 110, 103];
    let ppm: Vec<u8> = vec![112u8, 112, 109];
    let qoi: Vec<u8> = vec![113u8, 111, 105];
    proof {
        assert(farbfeld@ =~= seq![102u8, 97, 114, 98, 102, 101, 108, 100]);
        assert(jpeg@ =~= seq![106u8, 112, 101, 103]);
        assert(jpeg_xl@ =~= seq![106u8, 112, 101, 103, 95, 120, 108]);
        assert(mozjpeg@ =~= seq![109u8, 111, 122, 106, 112, 101, 103]);
        assert(png@ =~= seq![112u8, 110, 103]);
        assert(ppm@ =~= seq![112u8, 112, 109]);
        assert(qoi@ =~= seq![113u8, 111, 105]);
    }
    if bytes_eq(name, farbfeld.as_slice()) {
        Some(Codec::Farbfeld)
    } else if bytes_eq(name, jpeg.as_slice()) {
        Some(Codec::Jpeg)
    } else if bytes_eq(name, jpeg_xl.as_slice()) {
        Some(Codec::JpegXl)
    } else if bytes_eq(name, mozjpeg.as_slice()) {
        Some(Codec::MozJpeg)
    } else if bytes_eq(name, png.as_slice()) {
        Some(Codec::Png)
    } else if bytes_eq(name, ppm.as_slice()) {
        Some(Codec::Ppm)
    } else if bytes_eq(name, qoi.as_slice()) {
        Some(Codec::Qoi)
    } else {
        None
    }
}

/// The canonical file extension of a codec's output.
pub open spec fn spec_extension(c: Codec) -> Seq<char> {
    match c {
        Codec::Farbfeld => "ff"@,
        Codec::Jpeg => "jpg"@,
        Codec::JpegXl => "jxl"@,
        Codec::MozJpeg => "jpg"@,
        Codec::Png => "png"@,
        Codec::Ppm => "ppm"@,
        Codec::Qoi => "qoi"@,
    }
}

/// The file extension written beside a codec's output.
pub fn extension_for(c: Codec) -> (r: &'static str)
    ensures
        r@ == spec_extension(c),
{
    match c {
        Codec::Farbfeld => "ff",
        Codec::Jpeg => "jpg",
        Codec::JpegXl => "jxl",
        Codec::MozJpeg => "jpg",
        Codec::Png => "png",
        Codec::Ppm => "ppm",
        Codec::Qoi => "qoi",
    }
}

/// Is the configurator's range validation met for the codec the name
/// denotes? Only the advanced JPEG encoder demands anything.
pub open spec fn spec_suboptions_ok_for(name: Seq<u8>, o: EncoderSubOptions) -> bool {
    match spec_codec_of_name(name) {
        Some(Codec::MozJpeg) => spec_mozjpeg_suboptions_ok(o),
        _ => true,
    }
}

/// Configure the output encoder: a fixed lookup from the chosen codec name
/// to a fully populated encoder value and its canonical file extension. No
/// selection at all and an unrecognized name are distinct terminal errors.
pub fn encoder(sub: Option<(&str, &EncoderSubOptions)>)
    -> (r: Result<(EncoderChoice, &'static str), ConfigError>)
    requires
        match sub {
            Some((name, o)) => spec_suboptions_ok_for(name.spec_bytes(), *o),
            None => true,
        },
    ensures
        match sub {
            None => r == Err::<(EncoderChoice, &'static str), ConfigError>(
                ConfigError::NoEncoderSelected,
            ),
            Some((name, o)) => match spec_codec_of_name(name.spec_bytes()) {
                None => r matches Err(ConfigError::UnknownEncoder(b))
                    && b@ == name.spec_bytes(),
                Some(c) => {
                    &&& r matches Ok(pair)
                    &&& pair.1@ == spec_extension(c)
                    &&& match c {
                        Codec::Farbfeld => pair.0 is Farbfeld,
                        Codec::Jpeg => pair.0 matches EncoderChoice::Jpeg(j)
                            && j.quality == o.quality && j.progressive == o.progressive,
                        Codec::JpegXl => pair.0 is JpegXl,
                        Codec::MozJpeg => pair.0 matches EncoderChoice::MozJpeg(enc)
                            && spec_mozjpeg_options_match(*o, enc.options),
                        Codec::Png => pair.0 is Png,
                        Codec::Ppm => pair.0 is Ppm,
                        Codec::Qoi => pair.0 is Qoi,
                    }
                },
            },
        },
{
    match sub {
        None => Err(ConfigError::NoEncoderSelected),
        Some((name, o)) => {
            let bytes = name.as_bytes();
            match codec_of_name(bytes) {
                None => {
                    let mut owned: Vec<u8> = Vec::new();
                    let n = bytes.len();
                    let mut i: usize = 0;
                    while i < n
                        invariant
                            0 <= i <= n,
                            n == bytes@.len(),
                            owned@ =~= bytes@.subrange(0, i as int),
                        decreases n - i,
                    {
                        owned.push(bytes[i]);
                        i = i + 1;
                    }
                    proof {
                        assert(owned@ =~= bytes@);
                    }
                    Err(ConfigError::UnknownEncoder(owned))
                }
                Some(c) => {
                    let choice = match c {
                        Codec::Farbfeld => EncoderChoice::Farbfeld,
                        Codec::Jpeg => EncoderChoice::Jpeg(JpegOptions {
                            quality: o.quality,
                            progressive: o.progressive,
                        }),
                        Codec::JpegXl => EncoderChoice::JpegXl,
                        Codec::MozJpeg => EncoderChoice::MozJpeg(MozJpegEncoder {
                            options: mozjpeg_options(o),
                        }),
                        Codec::Png => EncoderChoice::Png,
                        Codec::Ppm => EncoderChoice::Ppm,
                        Codec::Qoi => EncoderChoice::Qoi,
                    };
                    Ok((choice, extension_for(c)))
                }
            }
        }
    }
}

/// Everything the native JPEG invocation needs, resolved from the options
/// and one canonical image: plain values only, ready to hand across the
/// crash-containment boundary.
pub struct MozJpegPlan {
    pub width: usize,
    pub height: usize,
    /// The native layout of the pixels handed over.
    pub pixel_format: NativeColorSpace,
    /// The output colorspace actually used.
    pub output_color_space: NativeColorSpace,
    /// Whether the input colorspace overrode the user's request; reported as
    /// an informational notice, never an error.
    pub colorspace_overridden: bool,
    pub quality: u8,
    pub chroma_quality: u8,
    pub progressive: bool,
    pub optimize_coding: bool,
    pub smoothing: u8,
    pub trellis_multipass: bool,
    pub chroma_subsample: Option<u8>,
    pub luma_qtable: Option<Vec<u16>>,
    pub chroma_qtable: Option<Vec<u16>>,
    /// Eight-bit interleaved pixels.
    pub data: Vec<u8>,
}

impl MozJpegEncoder {
    /// Resolve one encode: flatten the image to eight bits per channel, map
    /// its canonical colorspace to the native layout, let a grayscale, CMYK
    /// or YCCK input force a matching output over the user's request (with
    /// the override signalled), and carry every tunable over.
    pub fn encode_plan(&self, img: &CanonicalImage) -> (r: MozJpegPlan)
        requires
            img.wf(),
            img.depth != BitDepth::FloatPerChannel,
        ensures
            r.width == img.width,
            r.height == img.height,
            r.pixel_format == spec_native_of_canonical(img.colorspace),
            r.output_color_space == spec_forced_output(r.pixel_format, self.options.color_space),
            r.colorspace_overridden == (r.output_color_space != self.options.color_space),
            r.quality == self.options.quality,
            r.chroma_quality == self.options.chroma_quality,
            r.progressive == self.options.progressive,
            r.optimize_coding == self.options.optimize_coding,
            r.smoothing == self.options.smoothing,
            r.trellis_multipass == self.options.trellis_multipass,
            r.chroma_subsample == self.options.chroma_subsample,
            match self.options.luma_qtable {
                Some(t) => r.luma_qtable matches Some(rt) && rt@ == t@,
                None => r.luma_qtable is None,
            },
            match self.options.chroma_qtable {
                Some(t) => r.chroma_qtable matches Some(rt) && rt@ == t@,
                None => r.chroma_qtable is None,
            },
            r.data@.len() == img.spec_flat_len(),
            forall|i: int| 0 <= i < r.data@.len() ==> r.data@[i] == img.spec_flat_u8(i),
    {
        let pixel_format = native_of_canonical(img.colorspace);
        let (output_color_space, colorspace_overridden) =
            forced_output(pixel_format, self.options.color_space);
        let data = img.flatten_to_u8();
        MozJpegPlan {
            width: img.width,
            height: img.height,
            pixel_format,
            output_color_space,
            colorspace_overridden,
            quality: self.options.quality,
            chroma_quality: self.options.chroma_quality,
            progressive: self.options.progressive,
            optimize_coding: self.options.optimize_coding,
            smoothing: self.options.smoothing,
            trellis_multipass: self.options.trellis_multipass,
            chroma_subsample: self.options.chroma_subsample,
            luma_qtable: clone_table(&self.options.luma_qtable),
            chroma_qtable: clone_table(&self.options.chroma_qtable),
            data,
        }
    }
}

/// Copy an optional quantization table.
fn clone_table(t: &Option<Vec<u16>>) -> (r: Option<Vec<u16>>)
    ensures
        match t {
            Some(v) => r matches Some(rv) && rv@ == v@,
            None => r is None,
        },
{
    match t {
        Some(v) => {
            let mut out: Vec<u16> = Vec::new();
            let n = v.len();
            let mut i: usize = 0;
            while i < n
                invariant
                    0 <= i <= n,
                    n == v@.len(),
                    out@ =~= v@.subrange(0, i as int),
                decreases n - i,
            {
                out.push(v[i]);
                i = i + 1;
            }
            proof {
                assert(out@ =~= v@);
            }
            Some(out)
        }
        None => None,
    }
}

/// Deriving the advanced JPEG options is deterministic: any two options
/// values derived from the same sub-options agree on every tunable, and
/// their quantization tables, when present, are entry-wise equal.
pub proof fn lemma_mozjpeg_options_deterministic(
    o: EncoderSubOptions,
    a: MozJpegOptions,
    b: MozJpegOptions,
)
    requires
        spec_mozjpeg_options_match(o, a),
        spec_mozjpeg_options_match(o, b),
    ensures
        a.quality == b.quality,
        a.chroma_quality == b.chroma_quality,
        a.progressive == b.progressive,
        a.optimize_coding == b.optimize_coding,
        a.smoothing == b.smoothing,
        a.color_space == b.color_space,
        a.trellis_multipass == b.trellis_multipass,
        a.chroma_subsample == b.chroma_subsample,
        match (a.luma_qtable, b.luma_qtable) {
            (Some(x), Some(y)) => x@ =~= y@,
            (None, None) => true,
            _ => false,
        },
        match (a.chroma_qtable, b.chroma_qtable) {
            (Some(x), Some(y)) => x@ =~= y@,
            (None, None) => true,
            _ => false,
        },
{
    match o.qtable {
        Some(f) => {
            let x = a.luma_qtable->0;
            let y = b.luma_qtable->0;
            assert forall|i: int| 0 <= i < x@.len() implies x@[i] == y@[i] by {
                assert(x@[i] == spec_scaled_entry(spec_luma_base(f)[i] as int, a.quality as int));
            }
            assert(x@ =~= y@);
            let cx = a.chroma_qtable->0;
            let cy = b.chroma_qtable->0;
            assert forall|i: int| 0 <= i < cx@.len() implies cx@[i] == cy@[i] by {
                assert(cx@[i] == spec_scaled_entry(
                    spec_chroma_base(f)[i] as int,
                    a.chroma_quality as int,
                ));
            }
            assert(cx@ =~= cy@);
        }
        None => {}
    }
}

/// The codecs whose whole encode runs inside this library.
#[derive(Clone, Copy, PartialEq, Eq, Structural, Debug)]
pub enum PureCodec {
    Farbfeld,
    Jpeg,
    JpegXl,
    Png,
    Ppm,
    Qoi,
}

/// What a pure codec produces for an image and its options: the encoded
/// bytes, or the error the codec reported. Encoding is a function of these
/// values alone, so the outcome carries one name for all callers.
pub uninterp spec fn spec_pure_encode(
    fmt: PureCodec,
    quality: Option<u8>,
    progressive: bool,
    width: int,
    height: int,
    colorspace: ColorSpace,
    data: Seq<u8>,
) -> Result<Seq<u8>, EncodeError>;

/// Relies on zune_image's Image::from_u8, which panics unless the
/// dimensions are positive, the product width * height * components fits a
/// usize, and the buffer holds exactly that many eight-bit samples; the
/// canonical colorspaces map to the zune_core layouts of the same name,
/// with the same component counts.
#[verifier::external_body]
fn to_zune_image(data: &Vec<u8>, width: usize, height: usize, colorspace: ColorSpace)
    -> (r: Image)
    requires
        width > 0,
        height > 0,
        data@.len() == width * height * colorspace.spec_channels(),
        colorspace != ColorSpace::Unknown,
{
    let cs = match colorspace {
        ColorSpace::Luma => ZColor::Luma, ColorSpace::RGB => ZColor::RGB,
        ColorSpace::RGBA => ZColor::RGBA, ColorSpace::BGR => ZColor::BGR,
        ColorSpace::BGRA => ZColor::BGRA, ColorSpace::ARGB => ZColor::ARGB,
        ColorSpace::YCbCr => ZColor::YCbCr, ColorSpace::YCCK => ZColor::YCCK,
        _ => ZColor::CMYK };
    Image::from_u8(data.as_slice(), width, height, cs)
}

/// Relies on zune_image's ImageFormat::encode, which dispatches to the
/// chosen codec's encoder and converts an image in an unsupported
/// colorspace or depth before encoding; the image value is built from the
/// same plain arguments by `to_zune_image`. The quality travels via
/// zune_core's EncoderOptions; the progressive flag is handed to
/// set_jpeg_encode_progressive, which in zune_core 0.5.3 sets the encoder's
/// huffman-optimization flag. Every encoder error becomes the
/// codec-rejected value, and the whole outcome is a pure function of the
/// arguments, named by spec_pure_encode.
#[verifier::external_body]
fn pure_encode(
    fmt: PureCodec,
    quality: Option<u8>,
    progressive: bool,
    data: &Vec<u8>,
    width: usize,
    height: usize,
    colorspace: ColorSpace,
) -> (r: Result<Vec<u8>, EncodeError>)
    requires
        width > 0,
        height > 0,
        data@.len() == width * height * colorspace.spec_channels(),
        colorspace != ColorSpace::Unknown,
    ensures
        match r {
            Ok(v) => spec_pure_encode(fmt, quality, progressive, width as int, height as int,
                colorspace, data@) == Ok::<Seq<u8>, EncodeError>(v@),
            Err(e) => spec_pure_encode(fmt, quality, progressive, width as int, height as int,
                colorspace, data@) == Err::<Seq<u8>, EncodeError>(e),
        },
{
    let im = to_zune_image(data, width, height, colorspace);
    let base = EncoderOptions::default();
    let opts = (match quality { Some(q) => base.set_quality(q), None => base })
        .set_jpeg_encode_progressive(progressive);
    let zf = match fmt {
        PureCodec::Farbfeld => ImageFormat::Farbfeld, PureCodec::Jpeg => ImageFormat::JPEG,
        PureCodec::JpegXl => ImageFormat::JPEG_XL, PureCodec::Png => ImageFormat::PNG,
        PureCodec::Ppm => ImageFormat::PPM, PureCodec::Qoi => ImageFormat::QOI };
    let mut sink: Vec<u8> = Vec::new();
    match zf.encode(&im, opts, &mut sink) { Ok(_) => Ok(sink), Err(_) => Err(EncodeError::CodecRejected) }
}

/// The pure codec an encoder choice stands for; the advanced JPEG encoder
/// has none, since its invocation crosses the crash-containment boundary.
pub open spec fn spec_pure_codec_of(choice: EncoderChoice) -> Option<PureCodec> {
    match choice {
        EncoderChoice::Farbfeld => Some(PureCodec::Farbfeld),
        EncoderChoice::Jpeg(_) => Some(PureCodec::Jpeg),
        EncoderChoice::JpegXl => Some(PureCodec::JpegXl),
        EncoderChoice::Png => Some(PureCodec::Png),
        EncoderChoice::Ppm => Some(PureCodec::Ppm),
        EncoderChoice::Qoi => Some(PureCodec::Qoi),
        EncoderChoice::MozJpeg(_) => None,
    }
}

/// The quality option an encoder choice hands to its pure codec.
pub open spec fn spec_pure_quality(choice: EncoderChoice) -> Option<u8> {
    match choice {
        EncoderChoice::Jpeg(j) => j.quality,
        _ => None,
    }
}

/// The progressive flag an encoder choice hands to its pure codec.
pub open spec fn spec_pure_progressive(choice: EncoderChoice) -> bool {
    match choice {
        EncoderChoice::Jpeg(j) => j.progressive,
        _ => false,
    }
}

/// What encoding an image with a pure-codec choice yields: the named pure
/// encode of the image's flattened eight-bit view under the choice's codec
/// and options.
pub open spec fn spec_encode_result(choice: EncoderChoice, img: CanonicalImage)
    -> Result<Seq<u8>, EncodeError> {
    spec_pure_encode(
        spec_pure_codec_of(choice)->0,
        spec_pure_quality(choice),
        spec_pure_progressive(choice),
        img.width as int,
        img.height as int,
        img.colorspace,
        img.spec_flat(),
    )
}

/// Encode one canonical image with a configured pure-codec encoder: exactly
/// the named pure encode of the image's flattened eight-bit view. The
/// advanced JPEG encoder is not handled here: its invocation crosses the
/// crash-containment boundary, fed by `MozJpegEncoder::encode_plan`.
pub fn encode_image(choice: &EncoderChoice, img: &CanonicalImage)
    -> (r: Result<Vec<u8>, EncodeError>)
    requires
        img.wf(),
        img.depth != BitDepth::FloatPerChannel,
        img.colorspace != ColorSpace::Unknown,
        !(choice is MozJpeg),
    ensures
        match r {
            Ok(v) => spec_encode_result(*choice, *img) == Ok::<Seq<u8>, EncodeError>(v@),
            Err(e) => spec_encode_result(*choice, *img) == Err::<Seq<u8>, EncodeError>(e),
        },
{
    let flat = img.flatten_to_u8();
    proof {
        assert(flat@ =~= img.spec_flat());
    }
    let (fmt, quality, progressive): (PureCodec, Option<u8>, bool) = match choice {
        EncoderChoice::Farbfeld => (PureCodec::Farbfeld, None, false),
        EncoderChoice::Jpeg(j) => (PureCodec::Jpeg, j.quality, j.progressive),
        EncoderChoice::JpegXl => (PureCodec::JpegXl, None, false),
        EncoderChoice::Png => (PureCodec::Png, None, false),
        EncoderChoice::Ppm => (PureCodec::Ppm, None, false),
        EncoderChoice::Qoi => (PureCodec::Qoi, None, false),
        EncoderChoice::MozJpeg(_) => (PureCodec::Qoi, None, false),
    };
    pure_encode(fmt, quality, progressive, &flat, img.width, img.height, img.colorspace)
}

/// Encoding with a pure codec is deterministic: the outcome is a function
/// of the configured choice and the image alone, so two encodes of the same
/// image under the same choice yield the same bytes or the same error.
pub proof fn lemma_encode_deterministic(
    a: EncoderChoice,
    b: EncoderChoice,
    x: CanonicalImage,
    y: CanonicalImage,
)
    requires
        a == b,
        x == y,
    ensures
        spec_encode_result(a, x) == spec_encode_result(b, y),
{
}

} // verus!
