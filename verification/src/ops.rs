//! Transform operations: what one occurrence of a transform flag becomes
//! once its value is resolved against the image's dimensions at build time.

use vstd::prelude::*;

use crate::color::ColorSpace;
use crate::error::OperationError;
use crate::image::BitDepth;

verus! {

/// The resampling filter a resize uses.
#[derive(Clone, Copy, PartialEq, Eq, Structural, Debug)]
pub enum ResizeFilter {
    Nearest,
    Bilinear,
    Hamming,
    CatmullRom,
    Mitchell,
    Lanczos3,
}

impl Default for ResizeFilter {
    /// The filter used when the user selects none.
    fn default() -> (r: Self)
        ensures
            r == ResizeFilter::Lanczos3,
    {
        ResizeFilter::Lanczos3
    }
}

/// A requested resize target: either absolute dimensions or a percentage of
/// the image's dimensions at build time.
#[derive(Clone, Copy, PartialEq, Eq, Structural, Debug)]
pub enum ResizeRequest {
    Dimensions { width: usize, height: usize },
    Percentage { percent: usize },
}

impl ResizeRequest {
    /// A request the configuration layer may hand over: positive targets.
    pub open spec fn valid(self) -> bool {
        match self {
            ResizeRequest::Dimensions { width, height } => width > 0 && height > 0,
            ResizeRequest::Percentage { percent } => percent > 0,
        }
    }

    /// The target dimensions this request resolves to against current
    /// dimensions (w, h); a percentage scales both sides, never below one.
    pub open spec fn spec_target(self, w: int, h: int) -> (int, int) {
        match self {
            ResizeRequest::Dimensions { width, height } => (width as int, height as int),
            ResizeRequest::Percentage { percent } => {
                let tw = w * percent / 100;
                let th = h * percent / 100;
                (if tw < 1 { 1int } else { tw }, if th < 1 { 1int } else { th })
            }
        }
    }

    /// Whether resolving against (w, h) stays within machine limits.
    pub open spec fn fits(self, w: int, h: int) -> bool {
        match self {
            ResizeRequest::Percentage { percent } => {
                w * percent <= usize::MAX && h * percent <= usize::MAX
            }
            _ => true,
        }
    }

    /// Resolve the request against the image's current dimensions.
    pub fn map_dimensions(self, w: usize, h: usize) -> (r: (usize, usize))
        requires
            self.valid(),
            self.fits(w as int, h as int),
        ensures
            r.0 as int == self.spec_target(w as int, h as int).0,
            r.1 as int == self.spec_target(w as int, h as int).1,
            r.0 > 0,
            r.1 > 0,
    {
        match self {
            ResizeRequest::Dimensions { width, height } => (width, height),
            ResizeRequest::Percentage { percent } => {
                let tw = w * percent / 100;
                let th = h * percent / 100;
                (if tw < 1 { 1 } else { tw }, if th < 1 { 1 } else { th })
            }
        }
    }
}

/// One constructed transform: applied in place to a canonical image, in
/// argument-slot order, by the caller of the pipeline builder.
#[derive(Clone, Copy, PartialEq, Eq, Structural, Debug)]
pub enum Operation {
    /// Resample to the resolved target dimensions with the chosen filter.
    Resize { width: usize, height: usize, filter: ResizeFilter },
    /// Reduce to a palette of `colors` entries; `dithering` is a percentage
    /// (an applying backend divides it by one hundred for a strength in the
    /// unit range).
    Quantize { colors: u8, dithering: Option<u8> },
}

impl Operation {
    /// Whether this operation can apply to an image in the given state, and
    /// the classified error when it cannot: resampling works on eight-bit
    /// samples, and palette quantization additionally needs interleaved
    /// RGBA. An operation that cannot apply must fail with this error,
    /// never be skipped silently.
    pub open spec fn spec_applicability(
        self,
        colorspace: ColorSpace,
        depth: BitDepth,
    ) -> Result<(), OperationError> {
        match self {
            Operation::Resize { .. } => if depth != BitDepth::Eight {
                Err(OperationError::UnsupportedBitDepth)
            } else {
                Ok(())
            },
            Operation::Quantize { .. } => if colorspace != ColorSpace::RGBA {
                Err(OperationError::UnsupportedColorspace)
            } else if depth != BitDepth::Eight {
                Err(OperationError::UnsupportedBitDepth)
            } else {
                Ok(())
            },
        }
    }

    /// Check this operation against an image's current colorspace and depth.
    pub fn check_applicable(&self, colorspace: ColorSpace, depth: BitDepth)
        -> (r: Result<(), OperationError>)
        ensures
            r == self.spec_applicability(colorspace, depth),
    {
        match self {
            Operation::Resize { .. } => {
                if depth != BitDepth::Eight {
                    Err(OperationError::UnsupportedBitDepth)
                } else {
                    Ok(())
                }
            }
            Operation::Quantize { .. } => {
                if colorspace != ColorSpace::RGBA {
                    Err(OperationError::UnsupportedColorspace)
                } else if depth != BitDepth::Eight {
                    Err(OperationError::UnsupportedBitDepth)
                } else {
                    Ok(())
                }
            }
        }
    }
}

} // verus!
