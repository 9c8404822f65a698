//! Format descriptors: the axes along which a raster image's sample buffer
//! can be encoded, and the aggregate descriptor that tags a buffer.

use vstd::prelude::*;

verus! {

/// Dynamic range of the mastered content: decides which tone-mapping
/// operator applies when the range axis changes.
#[derive(PartialEq, Eq, Structural, Copy, Clone, Debug)]
pub enum DynamicRange {
    HDR,
    SDR,
}

/// Whether samples lie in the unit interval (`Norm`) or are scaled to the
/// integer range implied by the color depth (`NonNorm`).
#[derive(PartialEq, Eq, Structural, Copy, Clone, Debug)]
pub enum NormFormat {
    Norm,
    NonNorm,
}

/// Which transfer curve, if any, has been applied to the normalized samples.
#[derive(PartialEq, Eq, Structural, Copy, Clone, Debug)]
pub enum SignalStatus {
    Linear,
    Gamma709,
    GammaPQ,
    GammaHLG,
}

/// Integer sample width; only meaningful while samples are non-normalized.
#[derive(PartialEq, Eq, Structural, Copy, Clone, Debug)]
pub enum ColorDepth {
    EightBit,
    SixteenBit,
}

/// RGB primaries of the samples.
#[derive(PartialEq, Eq, Structural, Copy, Clone, Debug)]
pub enum ColorSpace {
    Rec2020,
    Rec709,
}

/// Channel layout; a single variant exists today.
#[derive(PartialEq, Eq, Structural, Copy, Clone, Debug)]
pub enum ColorFormat {
    RGB,
}

/// The aggregate descriptor. Invariant maintained by the pipeline: the
/// descriptor attached to a buffer always describes the buffer's current
/// encoding on every axis.
#[derive(PartialEq, Eq, Structural, Copy, Clone, Debug)]
pub struct ImageFormat {
    pub dynamic_range: DynamicRange,
    pub norm: NormFormat,
    pub signal_status: SignalStatus,
    pub color_depth: ColorDepth,
    pub color_space: ColorSpace,
    pub color_format: ColorFormat,
}

impl ColorDepth {
    /// The integer scale that non-normalized samples of this depth use:
    /// the largest representable channel value.
    pub open spec fn scale_spec(self) -> int {
        match self {
            ColorDepth::EightBit => 255,
            ColorDepth::SixteenBit => 65535,
        }
    }

    /// Number of bits per channel sample.
    pub open spec fn bits_spec(self) -> int {
        match self {
            ColorDepth::EightBit => 8,
            ColorDepth::SixteenBit => 16,
        }
    }

    /// Number of bytes each channel sample occupies in a packed raster.
    pub open spec fn bytes_per_sample_spec(self) -> int {
        match self {
            ColorDepth::EightBit => 1,
            ColorDepth::SixteenBit => 2,
        }
    }

    pub fn scale(self) -> (r: u32)
        ensures
            r == self.scale_spec(),
    {
        match self {
            ColorDepth::EightBit => 255,
            ColorDepth::SixteenBit => 65535,
        }
    }

    pub fn bits(self) -> (r: u32)
        ensures
            r == self.bits_spec(),
    {
        match self {
            ColorDepth::EightBit => 8,
            ColorDepth::SixteenBit => 16,
        }
    }

    pub fn bytes_per_sample(self) -> (r: usize)
        ensures
            r == self.bytes_per_sample_spec(),
    {
        match self {
            ColorDepth::EightBit => 1,
            ColorDepth::SixteenBit => 2,
        }
    }
}

/// Number of channel samples a `width` by `height` RGB raster holds,
/// or `None` when `width * height * 3` does not fit in `usize`.
pub fn sample_count(width: usize, height: usize) -> (r: Option<usize>)
    ensures
        r is Some <==> width * height * 3 <= usize::MAX,
        r matches Some(n) ==> n == width * height * 3,
{
    proof {
        vstd::arithmetic::mul::lemma_mul_nonnegative(width as int, height as int);
    }
    match width.checked_mul(height) {
        Some(p) => p.checked_mul(3),
        None => None,
    }
}

} // verus!
