//! The capture device's native format, read once at startup.
use vstd::prelude::*;

verus! {

/// How the device encodes one sample natively.
#[derive(Clone, Copy, Debug, PartialEq, Eq, Structural)]
pub enum SampleEncoding {
    UInt16,
    Int16,
    Float32,
    /// An encoding the normalizer does not take, with its sample size in bytes.
    Other(u8),
}

/// The size in bytes of one native sample.
pub open spec fn spec_sample_size(e: SampleEncoding) -> nat {
    match e {
        SampleEncoding::UInt16 => 2,
        SampleEncoding::Int16 => 2,
        SampleEncoding::Float32 => 4,
        SampleEncoding::Other(bytes) => bytes as nat,
    }
}

/// The largest bit depth that is encoded; deeper sources are capped to it.
pub const MAX_ENCODED_BIT_DEPTH: u32 = 24;

/// The format of the capture device: fixed for the lifetime of a session.
#[derive(Clone, Copy, Debug, PartialEq, Eq, Structural)]
pub struct DeviceFormat {
    pub sample_rate: u32,
    pub channels: u16,
    pub encoding: SampleEncoding,
}

impl DeviceFormat {
    /// A usable format: positive rate, channel count and sample size.
    pub open spec fn wf(&self) -> bool {
        &&& self.sample_rate > 0
        &&& self.channels > 0
        &&& spec_sample_size(self.encoding) > 0
    }

    /// The native bit depth.
    pub open spec fn spec_bit_depth(&self) -> nat {
        spec_sample_size(self.encoding) * 8
    }

    /// The bit depth the encoder works at: the native depth, capped at 24.
    pub open spec fn spec_effective_bit_depth(&self) -> nat {
        if self.spec_bit_depth() < 24 {
            self.spec_bit_depth()
        } else {
            24
        }
    }
}

/// The size in bytes of one native sample.
pub fn sample_size(e: SampleEncoding) -> (r: usize)
    ensures
        r == spec_sample_size(e),
{
    match e {
        SampleEncoding::UInt16 => 2,
        SampleEncoding::Int16 => 2,
        SampleEncoding::Float32 => 4,
        SampleEncoding::Other(bytes) => bytes as usize,
    }
}

/// The device's sample rate in Hz.
pub fn sample_rate(format: &DeviceFormat) -> (r: u32)
    ensures
        r == format.sample_rate,
{
    format.sample_rate
}

/// The device's native bit depth: eight bits per byte of a native sample.
pub fn bit_depth(format: &DeviceFormat) -> (r: usize)
    ensures
        r == format.spec_bit_depth(),
{
    sample_size(format.encoding) * 8
}

/// The number of interleaved channels the device delivers.
pub fn channels(format: &DeviceFormat) -> (r: u16)
    ensures
        r == format.channels,
{
    format.channels
}

/// The bit depth used for encoding: `min(24, bit_depth(format))`.
pub fn effective_bit_depth(format: &DeviceFormat) -> (r: u32)
    ensures
        r == format.spec_effective_bit_depth(),
        r <= MAX_ENCODED_BIT_DEPTH,
{
    let depth = bit_depth(format);
    if depth < MAX_ENCODED_BIT_DEPTH as usize {
        depth as u32
    } else {
        MAX_ENCODED_BIT_DEPTH
    }
}

} // verus!
