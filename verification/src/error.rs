//! The error taxonomy. Every condition recoverable at its point of
//! detection is converted into one of these classified values immediately;
//! nothing is silently swallowed or downgraded.

use vstd::prelude::*;

verus! {

/// Why a decode attempt ended without an image.
#[derive(Clone, Copy, PartialEq, Eq, Structural, Debug)]
pub enum DecodeError {
    /// No decoder, universal or specialized, accepts the input.
    UnsupportedFormat,
    /// A decoder recognized the format but the content is invalid.
    MalformedInput,
    /// A wrapped native library faulted (error return or abnormal
    /// termination) while decoding.
    NativeCodecFailure,
}

impl DecodeError {
    /// A user-facing description of the failure.
    pub fn describe(&self) -> (r: &'static str)
        ensures
            r@.len() > 0,
    {
        let s = match self {
            DecodeError::UnsupportedFormat => "no decoder accepts this input",
            DecodeError::MalformedInput => "the format was recognized but the content is invalid",
            DecodeError::NativeCodecFailure => "a native codec library faulted while decoding",
        };
        proof {
            reveal_strlit("no decoder accepts this input");
            reveal_strlit("the format was recognized but the content is invalid");
            reveal_strlit("a native codec library faulted while decoding");
        }
        s
    }
}

/// Why encoder configuration ended without an encoder.
#[derive(Clone, PartialEq, Eq, Debug)]
pub enum ConfigError {
    /// The requested codec name is not in the dispatch table; carries the
    /// offending name's bytes.
    UnknownEncoder(Vec<u8>),
    /// No output codec was selected at all.
    NoEncoderSelected,
}

/// Why an operation could not be applied to the image's current state.
#[derive(Clone, Copy, PartialEq, Eq, Structural, Debug)]
pub enum OperationError {
    /// The operation does not support the image's current colorspace.
    UnsupportedColorspace,
    /// The operation does not support the image's current bit depth.
    UnsupportedBitDepth,
}

/// Why an encode attempt ended without output bytes.
#[derive(Clone, Copy, PartialEq, Eq, Structural, Debug)]
pub enum EncodeError {
    /// The codec library reported an error for this image.
    CodecRejected,
    /// A wrapped native library faulted (error return or abnormal
    /// termination) while encoding.
    NativeCodecFailure,
}

} // verus!
