//! Integer core of the raster boundary: packing and unpacking channel
//! samples to bytes at either color depth. Eight-bit samples are carried
//! one byte each; sixteen-bit samples as big-endian byte pairs. The
//! encoding direction splits with truncating division and remainder, so
//! callers must hand it in-range samples.

use vstd::prelude::*;

use crate::format::ColorDepth;

verus! {

/// The sample a big-endian byte pair denotes.
pub open spec fn be_pair_value(hi: u8, lo: u8) -> int {
    hi * 256 + lo
}

/// Reads one sixteen-bit sample from its big-endian byte pair.
pub fn be_pair_to_sample(hi: u8, lo: u8) -> (r: u16)
    ensures
        r == be_pair_value(hi, lo),
{
    (hi as u16) * 256 + (lo as u16)
}

/// Splits one sixteen-bit sample into its big-endian byte pair.
pub fn sample_to_be_pair(v: u16) -> (r: (u8, u8))
    ensures
        r.0 == v as int / 256,
        r.1 == v as int % 256,
        be_pair_value(r.0, r.1) == v,
{
    ((v / 256) as u8, (v % 256) as u8)
}

/// Unpacks a raster byte buffer into integer channel samples. At eight
/// bits each byte is one sample; at sixteen bits each big-endian byte
/// pair is one sample.
pub fn bytes_to_samples(bytes: &Vec<u8>, depth: ColorDepth) -> (r: Vec<u16>)
    requires
        depth == ColorDepth::SixteenBit ==> bytes@.len() % 2 == 0,
    ensures
        depth == ColorDepth::EightBit ==> r@.len() == bytes@.len() && (forall|i: int|
            0 <= i < r@.len() ==> r@[i] == bytes@[i]),
        depth == ColorDepth::SixteenBit ==> r@.len() == bytes@.len() / 2 && (forall|i: int|
            0 <= i < r@.len() ==> r@[i] == be_pair_value(bytes@[2 * i], bytes@[2 * i + 1])),
{
    let mut samples: Vec<u16> = Vec::new();
    match depth {
        ColorDepth::EightBit => {
            let n = bytes.len();
            for i in 0..n
                invariant
                    n == bytes@.len(),
                    samples@.len() == i,
                    forall|j: int| 0 <= j < i ==> samples@[j] == bytes@[j],
            {
                samples.push(bytes[i] as u16);
            }
        },
        ColorDepth::SixteenBit => {
            let blen = bytes.len();
            let n = blen / 2;
            for i in 0..n
                invariant
                    blen == bytes@.len(),
                    blen % 2 == 0,
                    n == blen / 2,
                    samples@.len() == i,
                    forall|j: int|
                        0 <= j < i ==> samples@[j] == be_pair_value(bytes@[2 * j], bytes@[2 * j + 1]),
            {
                let s = be_pair_to_sample(bytes[2 * i], bytes[2 * i + 1]);
                samples.push(s);
            }
        },
    }
    samples
}

/// Packs integer channel samples into a raster byte buffer, the inverse
/// layout of `bytes_to_samples`. At eight bits every sample must already
/// fit in a byte: the scale of that depth is the largest legal value.
pub fn samples_to_bytes(samples: &Vec<u16>, depth: ColorDepth) -> (r: Vec<u8>)
    requires
        depth == ColorDepth::EightBit ==> forall|i: int|
            0 <= i < samples@.len() ==> samples@[i] <= 255,
    ensures
        depth == ColorDepth::EightBit ==> r@.len() == samples@.len() && (forall|i: int|
            0 <= i < r@.len() ==> r@[i] == samples@[i]),
        depth == ColorDepth::SixteenBit ==> r@.len() == 2 * samples@.len() && (forall|i: int|
            0 <= i < samples@.len() ==> r@[2 * i] == samples@[i] as int / 256 && r@[2 * i + 1]
                == samples@[i] as int % 256),
{
    let mut bytes: Vec<u8> = Vec::new();
    let n = samples.len();
    match depth {
        ColorDepth::EightBit => {
            for i in 0..n
                invariant
                    n == samples@.len(),
                    forall|j: int| 0 <= j < n ==> samples@[j] <= 255,
                    bytes@.len() == i,
                    forall|j: int| 0 <= j < i ==> bytes@[j] == samples@[j],
            {
                bytes.push(samples[i] as u8);
            }
        },
        ColorDepth::SixteenBit => {
            for i in 0..n
                invariant
                    n == samples@.len(),
                    bytes@.len() == 2 * i,
                    forall|j: int|
                        0 <= j < i ==> bytes@[2 * j] == samples@[j] as int / 256 && bytes@[2 * j + 1]
                            == samples@[j] as int % 256,
            {
                let (hi, lo) = sample_to_be_pair(samples[i]);
                bytes.push(hi);
                bytes.push(lo);
            }
        },
    }
    bytes
}

/// Law: splitting a sample into its big-endian pair and reading the pair
/// back yields the sample; the split is exact for every sixteen-bit value.
pub proof fn lemma_sample_pair_round_trip(v: u16)
    ensures
        be_pair_value((v as int / 256) as u8, (v as int % 256) as u8) == v,
{
    vstd::arithmetic::div_mod::lemma_fundamental_div_mod(v as int, 256);
}

/// Law: reading a big-endian pair and splitting the sample again yields
/// the pair.
pub proof fn lemma_pair_sample_round_trip(hi: u8, lo: u8)
    ensures
        be_pair_value(hi, lo) / 256 == hi,
        be_pair_value(hi, lo) % 256 == lo,
{
    vstd::arithmetic::div_mod::lemma_fundamental_div_mod_converse(
        be_pair_value(hi, lo),
        256,
        hi as int,
        lo as int,
    );
}

/// Law: packing samples at a depth and unpacking at the same depth
/// recovers the samples, at either depth — the byte layout loses nothing.
pub proof fn lemma_samples_bytes_round_trip(
    samples: Seq<u16>,
    bytes: Seq<u8>,
    back: Seq<u16>,
    depth: ColorDepth,
)
    requires
        depth == ColorDepth::EightBit ==> {
            &&& forall|i: int| 0 <= i < samples.len() ==> samples[i] <= 255
            &&& bytes.len() == samples.len()
            &&& forall|i: int| 0 <= i < bytes.len() ==> bytes[i] == samples[i]
            &&& back.len() == bytes.len()
            &&& forall|i: int| 0 <= i < back.len() ==> back[i] == bytes[i]
        },
        depth == ColorDepth::SixteenBit ==> {
            &&& bytes.len() == 2 * samples.len()
            &&& forall|i: int|
                0 <= i < samples.len() ==> bytes[2 * i] == samples[i] as int / 256 && bytes[2 * i
                    + 1] == samples[i] as int % 256
            &&& back.len() == bytes.len() / 2
            &&& forall|i: int|
                0 <= i < back.len() ==> back[i] == be_pair_value(bytes[2 * i], bytes[2 * i + 1])
        },
    ensures
        back =~= samples,
{
    match depth {
        ColorDepth::EightBit => {
        },
        ColorDepth::SixteenBit => {
            assert forall|i: int| 0 <= i < samples.len() implies back[i] == samples[i] by {
                lemma_sample_pair_round_trip(samples[i]);
            }
        },
    }
}

} // verus!
