//! The canonical in-memory pixel representation: one owned interleaved
//! buffer whose length is pinned by the image's dimensions, colorspace and
//! bit depth.

use vstd::prelude::*;

use crate::color::ColorSpace;

verus! {

/// Bits per channel sample of a canonical image.
#[derive(Clone, Copy, PartialEq, Eq, Structural, Debug)]
pub enum BitDepth {
    /// One byte per sample, full 0-255 range.
    Eight,
    /// Two bytes per sample, stored native (little) endian.
    Sixteen,
    /// Four bytes per sample, an IEEE value in the unit range; opaque here.
    FloatPerChannel,
}

impl BitDepth {
    /// Bytes one sample of this depth occupies.
    pub open spec fn spec_bytes_per_sample(self) -> nat {
        match self {
            BitDepth::Eight => 1,
            BitDepth::Sixteen => 2,
            BitDepth::FloatPerChannel => 4,
        }
    }

    /// Bytes one sample of this depth occupies.
    pub fn bytes_per_sample(self) -> (r: usize)
        ensures
            r == self.spec_bytes_per_sample(),
    {
        match self {
            BitDepth::Eight => 1,
            BitDepth::Sixteen => 2,
            BitDepth::FloatPerChannel => 4,
        }
    }

    /// The working depth an encoder chooses for an input depth: sixteen-bit
    /// and floating-point inputs are handled at sixteen bits, everything
    /// else at eight.
    pub open spec fn spec_default_depth(self) -> BitDepth {
        match self {
            BitDepth::Sixteen => BitDepth::Sixteen,
            BitDepth::FloatPerChannel => BitDepth::Sixteen,
            _ => BitDepth::Eight,
        }
    }

    /// The working depth an encoder chooses for this input depth.
    pub fn default_depth(self) -> (r: BitDepth)
        ensures
            r == self.spec_default_depth(),
    {
        match self {
            BitDepth::Sixteen | BitDepth::FloatPerChannel => BitDepth::Sixteen,
            _ => BitDepth::Eight,
        }
    }
}

/// The mathematical picture of a canonical image: its metadata and the
/// sequence of its buffer bytes.
pub struct ImageModel {
    pub width: nat,
    pub height: nat,
    pub colorspace: ColorSpace,
    pub depth: BitDepth,
    pub channels: nat,
    pub data: Seq<u8>,
}

impl ImageModel {
    /// The structural invariant at the model level: positive dimensions, a
    /// channel count the colorspace fixes (except for Unknown layouts, which
    /// keep the count their decoder reported), and a buffer of exactly the
    /// declared size.
    pub open spec fn wf(self) -> bool {
        &&& self.width > 0
        &&& self.height > 0
        &&& 1 <= self.channels <= 4
        &&& self.colorspace != ColorSpace::Unknown
            ==> self.channels == self.colorspace.spec_channels()
        &&& self.data.len() == self.width * self.height
            * self.channels * self.depth.spec_bytes_per_sample()
    }
}

/// The pivot data structure: the system's unified in-memory pixel
/// representation, independent of source or target codec.
#[derive(Clone, Debug)]
pub struct CanonicalImage {
    pub width: usize,
    pub height: usize,
    pub colorspace: ColorSpace,
    pub depth: BitDepth,
    /// Channels per pixel: fixed by the colorspace, except that an Unknown
    /// layout keeps the count its decoder reported.
    pub channels: usize,
    /// Interleaved samples; exactly
    /// width * height * channels * bytes-per-sample bytes.
    pub data: Vec<u8>,
}

/// Each partial product of width * height * channels * bytes-per-sample is
/// bounded by the full product when the remaining factors are at least one.
proof fn lemma_expected_len_dominates(w: nat, h: nat, c: nat, b: nat)
    requires
        c >= 1,
        b >= 1,
    ensures
        w * h * c * b >= w * h,
        w * h * c * b >= w * h * c,
{
    assert(w * h * c >= w * h && w * h * c * b >= w * h * c) by (nonlinear_arith)
        requires c >= 1 && b >= 1;
}

impl View for CanonicalImage {
    type V = ImageModel;

    open spec fn view(&self) -> ImageModel {
        ImageModel {
            width: self.width as nat,
            height: self.height as nat,
            colorspace: self.colorspace,
            depth: self.depth,
            channels: self.channels as nat,
            data: self.data@,
        }
    }
}

impl CanonicalImage {
    /// The structural invariant: positive dimensions and a buffer of exactly
    /// the declared size.
    pub open spec fn wf(self) -> bool {
        self@.wf()
    }

    /// Expected buffer length for the declared dimensions, channels and depth.
    pub open spec fn spec_expected_len(self) -> nat {
        (self.width * self.height * self.channels
            * self.depth.spec_bytes_per_sample()) as nat
    }

    /// Build an eight-bit canonical image from interleaved pixels.
    pub fn from_u8(data: Vec<u8>, width: usize, height: usize, colorspace: ColorSpace)
        -> (r: CanonicalImage)
        requires
            width > 0,
            height > 0,
            data@.len() == width * height * colorspace.spec_channels(),
        ensures
            r.wf(),
            r.width == width,
            r.height == height,
            r.colorspace == colorspace,
            r.depth == BitDepth::Eight,
            r.channels == colorspace.spec_channels(),
            r.data@ == data@,
    {
        let channels = colorspace.channels();
        CanonicalImage { width, height, colorspace, depth: BitDepth::Eight, channels, data }
    }

    /// Build a sixteen-bit canonical image from interleaved native-endian
    /// sample bytes.
    pub fn from_u16_bytes(data: Vec<u8>, width: usize, height: usize, colorspace: ColorSpace)
        -> (r: CanonicalImage)
        requires
            width > 0,
            height > 0,
            data@.len() == width * height * colorspace.spec_channels() * 2,
        ensures
            r.wf(),
            r.width == width,
            r.height == height,
            r.colorspace == colorspace,
            r.depth == BitDepth::Sixteen,
            r.channels == colorspace.spec_channels(),
            r.data@ == data@,
    {
        let channels = colorspace.channels();
        CanonicalImage { width, height, colorspace, depth: BitDepth::Sixteen, channels, data }
    }

    /// Image dimensions as (width, height).
    pub fn dimensions(&self) -> (r: (usize, usize))
        ensures
            r.0 == self.width,
            r.1 == self.height,
    {
        (self.width, self.height)
    }

    /// Runtime check of the structural invariant, for pixel buffers that
    /// arrive from an outside decoder and carry no proof.
    pub fn check_wf(&self) -> (r: bool)
        ensures
            r == self.wf(),
    {
        if self.width == 0 || self.height == 0 {
            return false;
        }
        if self.channels < 1 || self.channels > 4 {
            return false;
        }
        if self.colorspace != ColorSpace::Unknown && self.channels != self.colorspace.channels() {
            return false;
        }
        let c = self.channels;
        let b = self.depth.bytes_per_sample();
        proof {
            lemma_expected_len_dominates(
                self.width as nat,
                self.height as nat,
                self.channels as nat,
                self.depth.spec_bytes_per_sample(),
            );
        }
        // A buffer can only be as long as usize admits, so an overflowing
        // product cannot match any buffer length.
        let len = self.data.len();
        match self.width.checked_mul(self.height) {
            None => false,
            Some(wh) => match wh.checked_mul(c) {
                None => false,
                Some(whc) => match whc.checked_mul(b) {
                    None => false,
                    Some(total) => len == total,
                },
            },
        }
    }

    /// The flattened eight-bit sample at position `i` of the flattened view:
    /// eight-bit images hand their buffer through unchanged; sixteen-bit
    /// images keep the most significant byte of each native-endian sample.
    pub open spec fn spec_flat_u8(self, i: int) -> u8 {
        if self.depth == BitDepth::Eight {
            self.data@[i]
        } else {
            self.data@[2 * i + 1]
        }
    }

    /// Number of samples in the flattened eight-bit view.
    pub open spec fn spec_flat_len(self) -> nat {
        (self.width * self.height * self.channels) as nat
    }

    /// The flattened eight-bit view as one sequence.
    pub open spec fn spec_flat(self) -> Seq<u8> {
        Seq::new(self.spec_flat_len(), |i: int| self.spec_flat_u8(i))
    }

    /// Flatten to one eight-bit sample per channel: the identity for
    /// eight-bit images, the high byte of each sample for sixteen-bit ones.
    pub fn flatten_to_u8(&self) -> (r: Vec<u8>)
        requires
            self.wf(),
            self.depth != BitDepth::FloatPerChannel,
        ensures
            r@.len() == self.spec_flat_len(),
            forall|i: int| 0 <= i < r@.len() ==> r@[i] == self.spec_flat_u8(i),
    {
        match self.depth {
            BitDepth::Eight => {
                let r = self.data.clone();
                assert(r@ =~= self.data@);
                r
            }
            _ => {
                let len = self.data.len();
                let n = len / 2;
                assert(self.data@.len() == 2 * n) by {
                    assert(self.width * self.height * self.channels * 2
                        == 2 * (self.width * self.height * self.channels))
                        by (nonlinear_arith);
                };
                let mut out: Vec<u8> = Vec::new();
                let mut i: usize = 0;
                while i < n
                    invariant
                        0 <= i <= n,
                        len == self.data@.len(),
                        self.data@.len() == 2 * n,
                        self.depth == BitDepth::Sixteen,
                        out@.len() == i,
                        forall|j: int| 0 <= j < i ==> out@[j] == self.data@[2 * j + 1],
                    decreases n - i,
                {
                    proof {
                        assert(2 * (i as int) + 1 < self.data@.len());
                    }
                    out.push(self.data[2 * i + 1]);
                    i = i + 1;
                }
                assert(n == self.spec_flat_len()) by {
                    assert(self.width * self.height * self.channels * 2
                        == 2 * (self.width * self.height * self.channels))
                        by (nonlinear_arith);
                };
                out
            }
        }
    }
}

} // verus!
