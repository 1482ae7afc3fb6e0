//! Conversion of native sample blocks into the canonical interleaved
//! signed-integer representation that the encoder takes.
use vstd::prelude::*;

verus! {

/// The smallest canonical sample: -2^23.
pub const CANONICAL_MIN: i32 = -8388608;

/// The largest canonical sample: 2^23 - 1.
pub const CANONICAL_MAX: i32 = 8388607;

/// One block of interleaved samples as the device delivered it.
#[derive(Clone, Debug, PartialEq, Eq)]
pub enum SampleBlock {
    UInt16(Vec<u16>),
    Int16(Vec<i16>),
    /// 32-bit float samples, each already multiplied by 2^23 and rounded to
    /// the nearest integer (saturating at the bounds of `i32`).
    ScaledFloat32(Vec<i32>),
    /// A block in an encoding the normalizer does not take.
    Other,
}

/// An unsigned 16-bit sample moved to the signed range: `v - 32768`.
pub open spec fn spec_u16_to_i16(v: u16) -> i32 {
    (v - 32768) as i32
}

/// A scaled float sample saturated to `[-2^23, 2^23 - 1]`.
pub open spec fn spec_clamp_scaled(v: i32) -> i32 {
    if v < CANONICAL_MIN {
        CANONICAL_MIN
    } else if v > CANONICAL_MAX {
        CANONICAL_MAX
    } else {
        v
    }
}

/// The canonical buffer for a native block.
pub open spec fn spec_normalize(block: SampleBlock) -> Seq<i32> {
    match block {
        SampleBlock::UInt16(v) => v@.map_values(|x: u16| spec_u16_to_i16(x)),
        SampleBlock::Int16(v) => v@.map_values(|x: i16| x as i32),
        SampleBlock::ScaledFloat32(v) => v@.map_values(|x: i32| spec_clamp_scaled(x)),
        SampleBlock::Other => Seq::empty(),
    }
}

/// The number of samples a native block holds; zero for an encoding that is
/// not taken.
pub open spec fn spec_block_len(block: SampleBlock) -> nat {
    match block {
        SampleBlock::UInt16(v) => v@.len(),
        SampleBlock::Int16(v) => v@.len(),
        SampleBlock::ScaledFloat32(v) => v@.len(),
        SampleBlock::Other => 0,
    }
}

/// Moves an unsigned 16-bit sample to the signed range, as an unsigned
/// sample's midpoint 32768 becomes the signed zero.
pub fn u16_to_i16(v: u16) -> (r: i16)
    ensures
        r as i32 == spec_u16_to_i16(v),
{
    if v >= 32768 {
        (v - 32768) as i16
    } else {
        (v as i16) - 32767 - 1
    }
}

/// Saturates a scaled float sample to the canonical 24-bit range.
pub fn clamp_scaled(v: i32) -> (r: i32)
    ensures
        r == spec_clamp_scaled(v),
        CANONICAL_MIN <= r <= CANONICAL_MAX,
{
    if v < CANONICAL_MIN {
        CANONICAL_MIN
    } else if v > CANONICAL_MAX {
        CANONICAL_MAX
    } else {
        v
    }
}

/// Clears `out` and fills it with the canonical samples of `block`; returns
/// how many samples were written.
pub fn normalize(block: &SampleBlock, out: &mut Vec<i32>) -> (n: usize)
    ensures
        final(out)@ == spec_normalize(*block),
        n == final(out)@.len(),
        n == spec_block_len(*block),
{
    out.clear();
    match block {
        SampleBlock::UInt16(v) => {
            let mut i: usize = 0;
            while i < v.len()
                invariant
                    i <= v@.len(),
                    out@ == v@.subrange(0, i as int).map_values(|x: u16| spec_u16_to_i16(x)),
                decreases v@.len() - i,
            {
                out.push(u16_to_i16(v[i]) as i32);
                i = i + 1;
                assert(out@ =~= v@.subrange(0, i as int).map_values(|x: u16| spec_u16_to_i16(x)));
            }
            assert(v@.subrange(0, v@.len() as int) =~= v@);
        },
        SampleBlock::Int16(v) => {
            let mut i: usize = 0;
            while i < v.len()
                invariant
                    i <= v@.len(),
                    out@ == v@.subrange(0, i as int).map_values(|x: i16| x as i32),
                decreases v@.len() - i,
            {
                out.push(v[i] as i32);
                i = i + 1;
                assert(out@ =~= v@.subrange(0, i as int).map_values(|x: i16| x as i32));
            }
            assert(v@.subrange(0, v@.len() as int) =~= v@);
        },
        SampleBlock::ScaledFloat32(v) => {
            let mut i: usize = 0;
            while i < v.len()
                invariant
                    i <= v@.len(),
                    out@ == v@.subrange(0, i as int).map_values(|x: i32| spec_clamp_scaled(x)),
                decreases v@.len() - i,
            {
                out.push(clamp_scaled(v[i]));
                i = i + 1;
                assert(out@ =~= v@.subrange(0, i as int).map_values(|x: i32| spec_clamp_scaled(x)));
            }
            assert(v@.subrange(0, v@.len() as int) =~= v@);
        },
        SampleBlock::Other => {
            assert(out@ =~= Seq::<i32>::empty());
        },
    }
    out.len()
}

} // verus!
