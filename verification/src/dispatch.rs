//! The decode dispatcher: the universal, content-sniffing decoder first;
//! when it declines for want of a decoder (as opposed to failing on
//! malformed content, which is terminal), a fixed, ordered chain of
//! specialized decoders is consulted through capability predicates, and the
//! first predicate that holds chooses the decoder. A specialized decoder's
//! own failure is terminal: there is no further fallback.

use vstd::prelude::*;

use zune_core::bytestream::ZCursor;
use zune_core::options::DecoderOptions;
use zune_image::errors::ImageErrors;
use zune_image::image::Image;

use crate::color::ColorSpace;
use crate::error::DecodeError;
use crate::image::BitDepth;
use crate::image::CanonicalImage;
use crate::image::ImageModel;

verus! {

/// What the universal decoder produced for a byte buffer, at the model
/// level: an image, no decoder for the format, or malformed content.
pub enum UniversalModel {
    Decoded(ImageModel),
    NoDecoder,
    Malformed,
}

/// What the universal decoder returns for a byte buffer. Decoding is a pure
/// function of the bytes, so the outcome carries one name for all callers.
pub uninterp spec fn spec_universal_decode(bytes: Seq<u8>) -> UniversalModel;

/// The universal decoder's outcome, classified.
pub enum UniversalOutcome {
    /// The content was recognized and decoded.
    Decoded(CanonicalImage),
    /// No decoder is registered for this content.
    NoDecoder,
    /// A decoder recognized the format but the content is invalid.
    Malformed,
}

impl UniversalOutcome {
    /// The model-level picture of this outcome.
    pub open spec fn model(self) -> UniversalModel {
        match self {
            UniversalOutcome::Decoded(img) => UniversalModel::Decoded(img@),
            UniversalOutcome::NoDecoder => UniversalModel::NoDecoder,
            UniversalOutcome::Malformed => UniversalModel::Malformed,
        }
    }
}

#[verifier::external_type_specification]
#[verifier::external_body]
pub struct ExImage(Image);

/// Relies on Image::colorspace and the variants of zune_core's colorspace
/// enumeration: each pixel layout is carried over to the canonical
/// colorspace of the same name, and layouts the canonical model lacks
/// (grayscale with alpha, the hue-based spaces) become Unknown; their true
/// channel count still travels with the image (see `universal_decode`).
#[verifier::external_body]
fn canonical_colorspace_of(im: &Image) -> ColorSpace {
    match im.colorspace() {
        zune_core::colorspace::ColorSpace::RGB => ColorSpace::RGB,
        zune_core::colorspace::ColorSpace::RGBA => ColorSpace::RGBA,
        zune_core::colorspace::ColorSpace::YCbCr => ColorSpace::YCbCr,
        zune_core::colorspace::ColorSpace::Luma => ColorSpace::Luma,
        zune_core::colorspace::ColorSpace::YCCK => ColorSpace::YCCK,
        zune_core::colorspace::ColorSpace::CMYK => ColorSpace::CMYK,
        zune_core::colorspace::ColorSpace::BGR => ColorSpace::BGR,
        zune_core::colorspace::ColorSpace::BGRA => ColorSpace::BGRA,
        zune_core::colorspace::ColorSpace::ARGB => ColorSpace::ARGB,
        _ => ColorSpace::Unknown,
    }
}

/// Relies on Image::depth, Image::flatten_to_u8 and Image::flatten_frames:
/// eight-bit and floating-point images are flattened to eight bits per
/// sample (the depth conversion is total), and sixteen-bit images keep
/// their samples as native-endian byte pairs; the first frame is taken.
#[verifier::external_body]
fn flatten_native(im: &Image) -> (r: (BitDepth, Vec<u8>)) {
    if im.depth() == zune_core::bit_depth::BitDepth::Sixteen {
        let mut frames = im.flatten_frames::<u16>();
        let samples: Vec<u16> = if frames.is_empty() { Vec::new() } else { frames.remove(0) };
        let bytes: Vec<u8> = samples.into_iter().flat_map(u16::to_ne_bytes).collect();
        (BitDepth::Sixteen, bytes)
    } else {
        let mut frames = im.flatten_to_u8();
        (BitDepth::Eight, if frames.is_empty() { Vec::new() } else { frames.remove(0) })
    }
}

/// Relies on zune_image's Image::read for the universal decode (the format
/// is sniffed from the content, never from a file name), on
/// Image::dimensions for the metadata, on the colorspace's num_components
/// for the channel count (kept even where the layout maps to Unknown), and
/// on the two flattening calls behind `flatten_native` for the pixels. A
/// missing decoder (ImageDecoderNotIncluded or ImageDecoderNotImplemented)
/// is told apart from every other error, which means the content itself is
/// bad. The whole outcome is a pure function of the bytes, named by
/// spec_universal_decode.
#[verifier::external_body]
fn universal_decode(bytes: &Vec<u8>) -> (r: UniversalOutcome)
    ensures
        r.model() == spec_universal_decode(bytes@),
{
    match Image::read(ZCursor::new(bytes.as_slice()), DecoderOptions::default()) {
        Ok(im) => {
            let (width, height) = im.dimensions();
            let colorspace = canonical_colorspace_of(&im);
            let channels = im.colorspace().num_components();
            let (depth, data) = flatten_native(&im);
            let img = CanonicalImage { width, height, colorspace, depth, channels, data };
            UniversalOutcome::Decoded(img)
        }
        Err(ImageErrors::ImageDecoderNotIncluded(_))
        | Err(ImageErrors::ImageDecoderNotImplemented(_)) => UniversalOutcome::NoDecoder,
        Err(_) => UniversalOutcome::Malformed,
    }
}

/// The specialized decoders of the fallback chain, in priority order.
#[derive(Clone, Copy, PartialEq, Eq, Structural, Debug)]
pub enum SpecializedKind {
    /// Chosen by content: an ISO-BMFF `ftyp` box with an AV1 image brand.
    Avif,
    /// Chosen, as a last resort, by the file extension hint.
    Webp,
}

/// Content sniffing for the AV1 image format: an ISO-BMFF `ftyp` box whose
/// major brand is `avif` or `avis` (the byte values below spell `ftyp`,
/// then `avi` and a final `f` or `s`).
pub open spec fn spec_looks_like_avif(bytes: Seq<u8>) -> bool {
    &&& bytes.len() >= 12
    &&& bytes[4] == 102 && bytes[5] == 116 && bytes[6] == 121 && bytes[7] == 112
    &&& bytes[8] == 97 && bytes[9] == 118 && bytes[10] == 105
    &&& (bytes[11] == 102 || bytes[11] == 115)
}

/// Does the content carry the AV1 image format's magic bytes?
pub fn looks_like_avif(bytes: &[u8]) -> (r: bool)
    ensures
        r == spec_looks_like_avif(bytes@),
{
    bytes.len() >= 12 && bytes[4] == 102 && bytes[5] == 116 && bytes[6] == 121
        && bytes[7] == 112 && bytes[8] == 97 && bytes[9] == 118 && bytes[10] == 105
        && (bytes[11] == 102 || bytes[11] == 115)
}

/// A byte with any ASCII upper-case letter lowered.
pub open spec fn spec_ascii_lower(c: u8) -> u8 {
    if 65 <= c <= 90 {
        (c + 32) as u8
    } else {
        c
    }
}

/// Is the extension hint `webp`, compared without ASCII case?
pub open spec fn spec_is_webp_ext(ext: Seq<u8>) -> bool {
    &&& ext.len() == 4
    &&& spec_ascii_lower(ext[0]) == 119
    &&& spec_ascii_lower(ext[1]) == 101
    &&& spec_ascii_lower(ext[2]) == 98
    &&& spec_ascii_lower(ext[3]) == 112
}

fn ascii_lower(c: u8) -> (r: u8)
    ensures
        r == spec_ascii_lower(c),
{
    if c >= 65 && c <= 90 {
        c + 32
    } else {
        c
    }
}

/// Does the extension hint name the WebP format, whatever its case?
pub fn is_webp_ext(ext: &[u8]) -> (r: bool)
    ensures
        r == spec_is_webp_ext(ext@),
{
    ext.len() == 4 && ascii_lower(ext[0]) == 119 && ascii_lower(ext[1]) == 101
        && ascii_lower(ext[2]) == 98 && ascii_lower(ext[3]) == 112
}

/// Where one decode attempt stands once the universal decoder has been
/// consulted: a finished image, a specialized decoder still to invoke, or a
/// terminal error.
pub enum DecodeStep {
    Image(CanonicalImage),
    TrySpecialized(SpecializedKind),
    Failed(DecodeError),
}

/// The model-level picture of a dispatch step.
pub enum StepModel {
    Image(ImageModel),
    TrySpecialized(SpecializedKind),
    Failed(DecodeError),
}

impl DecodeStep {
    /// The model-level picture of this step.
    pub open spec fn model(self) -> StepModel {
        match self {
            DecodeStep::Image(img) => StepModel::Image(img@),
            DecodeStep::TrySpecialized(k) => StepModel::TrySpecialized(k),
            DecodeStep::Failed(e) => StepModel::Failed(e),
        }
    }
}

/// The extension hint as a byte sequence.
pub open spec fn spec_ext_view(ext: Option<&[u8]>) -> Option<Seq<u8>> {
    match ext {
        Some(e) => Some(e@),
        None => None,
    }
}

/// What dispatching a byte buffer yields: the universal decoder's image
/// (when structurally sound), its malformed-content verdict, or — only when
/// it has no decoder for the content — the first specialized decoder whose
/// capability predicate holds, the content sniff before the extension hint;
/// when no predicate holds, the input is unsupported.
pub open spec fn spec_dispatch(bytes: Seq<u8>, ext: Option<Seq<u8>>) -> StepModel {
    match spec_universal_decode(bytes) {
        UniversalModel::Decoded(m) => if m.wf() {
            StepModel::Image(m)
        } else {
            StepModel::Failed(DecodeError::MalformedInput)
        },
        UniversalModel::Malformed => StepModel::Failed(DecodeError::MalformedInput),
        UniversalModel::NoDecoder => if spec_looks_like_avif(bytes) {
            StepModel::TrySpecialized(SpecializedKind::Avif)
        } else if ext matches Some(e) && spec_is_webp_ext(e) {
            StepModel::TrySpecialized(SpecializedKind::Webp)
        } else {
            StepModel::Failed(DecodeError::UnsupportedFormat)
        },
    }
}

/// Dispatch one decode attempt: run the universal decoder on the bytes and
/// classify the result; on a missing decoder, choose the first specialized
/// decoder whose predicate accepts the input. The caller invokes the chosen
/// specialized decoder and folds its outcome back in with
/// `resolve_specialized`.
pub fn decode(bytes: &Vec<u8>, ext: Option<&[u8]>) -> (r: DecodeStep)
    ensures
        r.model() == spec_dispatch(bytes@, spec_ext_view(ext)),
        r matches DecodeStep::Image(img) ==> img.wf(),
{
    match universal_decode(bytes) {
        UniversalOutcome::Decoded(img) => {
            if img.check_wf() {
                DecodeStep::Image(img)
            } else {
                DecodeStep::Failed(DecodeError::MalformedInput)
            }
        }
        UniversalOutcome::Malformed => DecodeStep::Failed(DecodeError::MalformedInput),
        UniversalOutcome::NoDecoder => {
            if looks_like_avif(bytes.as_slice()) {
                DecodeStep::TrySpecialized(SpecializedKind::Avif)
            } else {
                match ext {
                    Some(e) => if is_webp_ext(e) {
                        DecodeStep::TrySpecialized(SpecializedKind::Webp)
                    } else {
                        DecodeStep::Failed(DecodeError::UnsupportedFormat)
                    },
                    None => DecodeStep::Failed(DecodeError::UnsupportedFormat),
                }
            }
        }
    }
}

/// Fold the chosen specialized decoder's outcome back into the dispatch: a
/// structurally sound image is final; a buffer of the wrong shape is
/// malformed content; and the decoder's own classified failure is terminal —
/// no further fallback is attempted.
pub fn resolve_specialized(outcome: Result<CanonicalImage, DecodeError>)
    -> (r: Result<CanonicalImage, DecodeError>)
    ensures
        match outcome {
            Ok(img) => if img.wf() {
                r == Ok::<CanonicalImage, DecodeError>(img)
            } else {
                r == Err::<CanonicalImage, DecodeError>(DecodeError::MalformedInput)
            },
            Err(e) => r == Err::<CanonicalImage, DecodeError>(e),
        },
{
    match outcome {
        Ok(img) => {
            if img.check_wf() {
                Ok(img)
            } else {
                Err(DecodeError::MalformedInput)
            }
        }
        Err(e) => Err(e),
    }
}

/// An input the universal decoder has no decoder for, but whose content the
/// AV1 sniff accepts, still reaches a decoder: it is dispatched to the
/// specialized chain's first entry, never rejected outright.
pub proof fn lemma_fallback_reaches_specialized(bytes: Seq<u8>, ext: Option<Seq<u8>>)
    requires
        spec_universal_decode(bytes) == UniversalModel::NoDecoder,
        spec_looks_like_avif(bytes),
    ensures
        spec_dispatch(bytes, ext) == StepModel::TrySpecialized(SpecializedKind::Avif),
{
}

/// An input no decoder recognizes — the universal decoder declines and no
/// specialized predicate holds — is rejected as an unsupported format, not
/// with any decoder's malformed-input error.
pub proof fn lemma_unrecognized_is_unsupported(bytes: Seq<u8>, ext: Option<Seq<u8>>)
    requires
        spec_universal_decode(bytes) == UniversalModel::NoDecoder,
        !spec_looks_like_avif(bytes),
        match ext {
            Some(e) => !spec_is_webp_ext(e),
            None => true,
        },
    ensures
        spec_dispatch(bytes, ext) == StepModel::Failed(DecodeError::UnsupportedFormat),
{
}

/// Malformed content is terminal at the universal decoder: the fallback
/// chain is never consulted, whatever the predicates would say.
pub proof fn lemma_malformed_is_terminal(bytes: Seq<u8>, ext: Option<Seq<u8>>)
    requires
        spec_universal_decode(bytes) == UniversalModel::Malformed,
    ensures
        spec_dispatch(bytes, ext) == StepModel::Failed(DecodeError::MalformedInput),
{
}

/// Dispatch is deterministic: it is a function of the input bytes and the
/// extension hint alone, so two attempts on the same input take the same
/// step.
pub proof fn lemma_dispatch_deterministic(
    bytes1: Seq<u8>,
    bytes2: Seq<u8>,
    ext1: Option<Seq<u8>>,
    ext2: Option<Seq<u8>>,
)
    requires
        bytes1 == bytes2,
        ext1 == ext2,
    ensures
        spec_dispatch(bytes1, ext1) == spec_dispatch(bytes2, ext2),
{
}

} // verus!
