//! A capture session: one client's stream, from the configured encoder to the
//! teardown of the device stream.
//!
//! The device's capture loop runs outside the library. For each block it
//! calls `CaptureSession::on_capture` and performs the action returned.
use vstd::prelude::*;
use futures::sync::mpsc::UnboundedSender;
use crate::delivery::ChannelSink;
use crate::flac::{EncoderConfig, EncoderPhase, EncoderState, NativeEncoder, StreamEncoder};
use crate::format::{channels, effective_bit_depth, sample_rate, DeviceFormat};
use crate::normalize::{normalize, spec_normalize, SampleBlock};

verus! {

/// The compression preset used for every session.
pub const COMPRESSION_LEVEL: u32 = 5;

/// What the capture loop must do after a block was handed to the session.
#[derive(Clone, Copy, Debug, PartialEq, Eq, Structural)]
pub enum CaptureAction {
    /// The block was encoded; keep capturing.
    Continue,
    /// The consumer is gone: release the device stream.
    DestroyStream,
    /// A stray block after the device stream was released: nothing to do.
    Ignore,
    /// The encoder failed; its native state cannot be trusted any further.
    Fatal,
}

/// The abstract state of a capture session.
pub struct SessionState<N> {
    /// Whether the consumer still takes chunks.
    pub active: bool,
    /// Whether the session has asked for the device stream to be released.
    pub released: bool,
    pub encoder: EncoderState<N, ChannelSink>,
    /// The canonical samples of the last block.
    pub buffer: Seq<i32>,
    /// The number of interleaved channels per frame.
    pub channels: nat,
}

impl<N> SessionState<N> {
    /// The encoder is well formed and a frame has at least one channel.
    pub open spec fn wf(&self) -> bool {
        &&& self.encoder.wf()
        &&& self.channels > 0
    }
}

/// One capture callback, as a relation between the session before and after
/// it and the action returned.
pub open spec fn capture_step<N>(pre: SessionState<N>, post: SessionState<N>, r: CaptureAction) -> bool {
    &&& post.released == (pre.released || r == CaptureAction::DestroyStream)
    &&& !pre.active ==> post == pre || (post == SessionState { released: true, ..pre })
    &&& !pre.active ==> (r == CaptureAction::DestroyStream <==> !pre.released)
    &&& !pre.active ==> (r == CaptureAction::Ignore <==> pre.released)
    &&& pre.active ==> (r == CaptureAction::Continue || r == CaptureAction::Fatal)
    &&& pre.active ==> (r == CaptureAction::Fatal <==> !post.encoder.ok)
}

/// Along a run of capture callbacks, released stays released and an
/// inactive session stays inactive.
proof fn lemma_run_monotone<N>(states: Seq<SessionState<N>>, actions: Seq<CaptureAction>, i: int, j: int)
    requires
        states.len() == actions.len() + 1,
        forall|k: int| 0 <= k < actions.len() ==> capture_step(#[trigger] states[k], states[k + 1], actions[k]),
        0 <= i <= j < states.len(),
    ensures
        states[i].released ==> states[j].released,
        !states[i].active ==> !states[j].active,
    decreases j - i,
{
    if i < j {
        lemma_run_monotone(states, actions, i, j - 1);
        assert(capture_step(states[j - 1], states[j], actions[j - 1]));
    }
}

/// In any run of capture callbacks the device stream is asked to be released
/// at most once. A session whose consumer is gone, and that has not yet asked,
/// asks on the very next callback, and stays inactive from then on.
pub proof fn lemma_teardown_exactly_once<N>(states: Seq<SessionState<N>>, actions: Seq<CaptureAction>)
    requires
        states.len() == actions.len() + 1,
        forall|k: int| 0 <= k < actions.len() ==> capture_step(#[trigger] states[k], states[k + 1], actions[k]),
    ensures
        forall|i: int, j: int|
            0 <= i < j < actions.len() && #[trigger] actions[i] == CaptureAction::DestroyStream
                ==> #[trigger] actions[j] != CaptureAction::DestroyStream,
        !states[0].active && !states[0].released && actions.len() > 0 ==> actions[0]
            == CaptureAction::DestroyStream,
        !states[0].active ==> forall|i: int| 0 <= i < states.len() ==> !(#[trigger] states[i]).active,
{
    assert forall|i: int, j: int|
        0 <= i < j < actions.len() && #[trigger] actions[i] == CaptureAction::DestroyStream
            implies #[trigger] actions[j] != CaptureAction::DestroyStream by {
        assert(capture_step(states[i], states[i + 1], actions[i]));
        lemma_run_monotone(states, actions, i + 1, j);
        assert(capture_step(states[j], states[j + 1], actions[j]));
    }
    if actions.len() > 0 {
        assert(capture_step(states[0], states[1], actions[0]));
    }
    assert forall|i: int| !states[0].active && 0 <= i < states.len() implies !(#[trigger] states[i]).active by {
        lemma_run_monotone(states, actions, 0, i);
    }
}

/// The settings every session's encoder is given for a device format.
pub open spec fn session_config(format: DeviceFormat) -> EncoderConfig {
    EncoderConfig {
        bits_per_sample: format.spec_effective_bit_depth() as u32,
        sample_rate: format.sample_rate,
        channels: format.channels as u32,
        compression_level: COMPRESSION_LEVEL,
        verify: true,
        total_samples_estimate: 0,
    }
}

/// The encoder of one client's stream, the device-stream bookkeeping and the
/// buffer that each block is normalized into.
pub struct CaptureSession<N> {
    encoder: StreamEncoder<N, ChannelSink>,
    buffer: Vec<i32>,
    channels: u16,
    released: bool,
}

impl<N> View for CaptureSession<N> {
    type V = SessionState<N>;

    closed spec fn view(&self) -> SessionState<N> {
        SessionState {
            active: match self.encoder@.sink {
                Some(sink) => sink.spec_active(),
                None => false,
            },
            released: self.released,
            encoder: self.encoder@,
            buffer: self.buffer@,
            channels: self.channels as nat,
        }
    }
}

impl<N: NativeEncoder> CaptureSession<N> {
    /// Configures an encoder for `format` and starts its stream, bound to a
    /// sink that forwards to `tx`. The caller must treat a session whose
    /// encoder is not ok as failed.
    pub fn start(format: &DeviceFormat, native: N, tx: UnboundedSender<Vec<u8>>) -> (r: Self)
        requires
            format.wf(),
        ensures
            r@.encoder.ok ==> r@.encoder.phase == EncoderPhase::Streaming && r@.active
                && r@.encoder.config == session_config(*format),
            r@.active == r@.encoder.ok,
            r@.encoder.fed.len() == 0,
            !r@.released,
            r@.channels == format.channels,
            r@.wf(),
    {
        let bps = effective_bit_depth(format);
        let mut encoder: StreamEncoder<N, ChannelSink> = StreamEncoder::create(native);
        encoder.set_bits_per_sample(bps);
        encoder.set_sample_rate(sample_rate(format));
        encoder.set_channels(channels(format) as u32);
        encoder.set_compression_level(COMPRESSION_LEVEL);
        encoder.set_verify(true);
        encoder.init_ogg_stream_non_seekable(ChannelSink::new(tx));
        CaptureSession {
            encoder,
            buffer: Vec::with_capacity(1024),
            channels: channels(format),
            released: false,
        }
    }

    /// Whether the consumer still takes chunks.
    pub fn is_active(&self) -> (r: bool)
        ensures
            r == self@.active,
    {
        match self.encoder.write_callback() {
            Some(sink) => sink.is_active(),
            None => false,
        }
    }

    /// Whether the session has asked for the device stream to be released.
    pub fn is_released(&self) -> (r: bool)
        ensures
            r == self@.released,
    {
        self.released
    }

    /// The session's encoder.
    pub fn encoder(&self) -> (r: &StreamEncoder<N, ChannelSink>)
        ensures
            r@ == self@.encoder,
    {
        &self.encoder
    }

    /// Handles one captured block. An inactive session asks once for the
    /// device stream to be released and ignores stray blocks after that. An
    /// active one normalizes the block and feeds its frames to the encoder;
    /// an encoder error after that is fatal.
    pub fn on_capture(&mut self, block: &SampleBlock) -> (r: CaptureAction)
        requires
            old(self)@.wf(),
        ensures
            capture_step(old(self)@, final(self)@, r),
            final(self)@.wf(),
            final(self)@.channels == old(self)@.channels,
            old(self)@.active ==> final(self)@.buffer == spec_normalize(*block),
            old(self)@.active && old(self)@.encoder.ok && old(self)@.encoder.phase
                == EncoderPhase::Streaming ==> final(self)@.encoder.fed == old(self)@.encoder.fed.push(
                (spec_normalize(*block), spec_normalize(*block).len() / old(self)@.channels),
            ),
    {
        if !self.is_active() {
            if self.released {
                return CaptureAction::Ignore;
            }
            self.released = true;
            return CaptureAction::DestroyStream;
        }
        let samples = normalize(block, &mut self.buffer);
        let frames = samples / (self.channels as usize);
        self.encoder.process_interleaved(self.buffer.as_slice(), frames);
        if self.encoder.is_ok() {
            CaptureAction::Continue
        } else {
            CaptureAction::Fatal
        }
    }
}

} // verus!
