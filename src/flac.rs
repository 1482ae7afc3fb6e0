//! A streaming lossless encoder with a latched error flag.
//!
//! `StreamEncoder` drives a native block encoder through a configuration
//! phase, one stream initialization and any number of `process` calls. Any
//! rejection by the native encoder, and any operation out of order, latches
//! the error flag; from then on every operation is a no-op that leaves the
//! native encoder and the write callback untouched.
use vstd::prelude::*;

verus! {

/// Receives the compressed frames that the native encoder emits.
pub trait FrameSink {
    /// Takes one compressed frame, with the number of samples it encodes and
    /// its index in the stream; returns whether the bytes were taken.
    fn write(&mut self, bytes: &[u8], samples: usize, current_frame: usize) -> (taken: bool);
}

/// The operations of a native lossless block encoder. Each returns whether
/// the native encoder accepted it; nothing else is assumed of it.
pub trait NativeEncoder {
    fn set_verify(&mut self, value: bool) -> (accepted: bool);

    fn set_compression_level(&mut self, value: u32) -> (accepted: bool);

    fn set_channels(&mut self, value: u32) -> (accepted: bool);

    fn set_bits_per_sample(&mut self, value: u32) -> (accepted: bool);

    fn set_sample_rate(&mut self, value: u32) -> (accepted: bool);

    fn set_total_samples_estimate(&mut self, value: u64) -> (accepted: bool);

    /// Starts a non-seekable container stream.
    fn init_ogg_stream(&mut self) -> (accepted: bool);

    /// Encodes `samples` interleaved frames of `buffer`, handing the frames
    /// that become complete to `sink`.
    fn process_interleaved<W: FrameSink>(
        &mut self,
        buffer: &[i32],
        samples: usize,
        sink: &mut W,
    ) -> (accepted: bool);

    /// Flushes the trailing frames to `sink` and ends the stream.
    fn finish<W: FrameSink>(&mut self, sink: &mut W) -> (accepted: bool);
}

/// Where the encoder stands in its life.
#[derive(Clone, Copy, Debug, PartialEq, Eq, Structural)]
pub enum EncoderPhase {
    /// Created; no setting made yet.
    Unconfigured,
    /// At least one setting accepted; the stream is not started.
    Configuring,
    /// The stream is initialized and takes samples.
    Streaming,
    /// The stream was finished.
    Finished,
}

/// The settings the native encoder accepted.
#[derive(Clone, Copy, Debug, PartialEq, Eq, Structural)]
pub struct EncoderConfig {
    pub bits_per_sample: u32,
    pub sample_rate: u32,
    pub channels: u32,
    pub compression_level: u32,
    pub verify: bool,
    pub total_samples_estimate: u64,
}

/// The abstract state of a `StreamEncoder`.
pub struct EncoderState<N, W> {
    pub ok: bool,
    pub phase: EncoderPhase,
    pub config: EncoderConfig,
    pub native: N,
    /// The write callback, bound by stream initialization.
    pub sink: Option<W>,
    /// Each block handed to the native encoder, with its frame count, in order.
    pub fed: Seq<(Seq<i32>, nat)>,
}

impl<N, W> EncoderState<N, W> {
    /// The write callback is bound exactly when the stream was started.
    pub open spec fn wf(&self) -> bool {
        self.sink.is_some() <==> (self.phase == EncoderPhase::Streaming || self.phase
            == EncoderPhase::Finished)
    }
}

/// A native encoder wrapped with a latched ok flag and its phase.
pub struct StreamEncoder<N, W> {
    native: N,
    sink: Option<W>,
    ok: bool,
    phase: EncoderPhase,
    config: EncoderConfig,
    fed: Ghost<Seq<(Seq<i32>, nat)>>,
}

impl<N, W> View for StreamEncoder<N, W> {
    type V = EncoderState<N, W>;

    closed spec fn view(&self) -> EncoderState<N, W> {
        EncoderState {
            ok: self.ok,
            phase: self.phase,
            config: self.config,
            native: self.native,
            sink: self.sink,
            fed: self.fed@,
        }
    }
}

/// The settings of a freshly created encoder.
pub open spec fn initial_config() -> EncoderConfig {
    EncoderConfig {
        bits_per_sample: 0,
        sample_rate: 0,
        channels: 0,
        compression_level: 0,
        verify: false,
        total_samples_estimate: 0,
    }
}

/// The state after a setter: a no-op once an error is latched; an error once
/// the stream is started or finished; else the native encoder's answer is the
/// new flag, and `set`, the settings with the new one recorded, are kept only
/// when it accepted.
pub open spec fn setter_outcome<N, W>(
    pre: EncoderState<N, W>,
    post: EncoderState<N, W>,
    set: EncoderConfig,
) -> bool {
    if !pre.ok {
        post == pre
    } else if pre.phase == EncoderPhase::Streaming || pre.phase == EncoderPhase::Finished {
        post == EncoderState { ok: false, ..pre }
    } else {
        &&& post.sink == pre.sink
        &&& post.fed == pre.fed
        &&& post.ok ==> post.phase == EncoderPhase::Configuring && post.config == set
        &&& !post.ok ==> post.phase == pre.phase && post.config == pre.config
    }
}

/// The state after `process_interleaved`: a no-op once an error is latched;
/// an error before the stream is started or after it was finished; else the
/// native encoder's answer decides the flag. Phase and settings stay.
pub open spec fn process_step<N, W>(
    pre: EncoderState<N, W>,
    post: EncoderState<N, W>,
    buffer: Seq<i32>,
    samples: nat,
) -> bool {
    &&& !pre.ok ==> post == pre
    &&& pre.ok && pre.phase != EncoderPhase::Streaming ==> post == (EncoderState {
        ok: false,
        ..pre
    })
    &&& post.phase == pre.phase
    &&& post.config == pre.config
    &&& post.sink.is_some() == pre.sink.is_some()
    &&& pre.ok && pre.phase == EncoderPhase::Streaming ==> post.fed == pre.fed.push(
        (buffer, samples),
    )
}

/// Once the stream is started, a setter changes neither the settings, the
/// phase, the write callback nor the native encoder, and leaves the encoder
/// in error: an encoder already in error is left exactly as it was.
pub proof fn lemma_setter_after_init_is_inert<N, W>(
    pre: EncoderState<N, W>,
    post: EncoderState<N, W>,
    set: EncoderConfig,
)
    requires
        pre.phase == EncoderPhase::Streaming,
        setter_outcome(pre, post, set),
    ensures
        post.config == pre.config,
        post.phase == pre.phase,
        post.sink == pre.sink,
        post.native == pre.native,
        !post.ok,
        !pre.ok ==> post == pre,
{
}

/// After a setter was rejected, processing a block reaches neither the native
/// encoder nor the write callback: the encoder is left exactly as it was.
pub proof fn lemma_process_after_rejected_setting<N, W>(
    before: EncoderState<N, W>,
    rejected: EncoderState<N, W>,
    processed: EncoderState<N, W>,
    set: EncoderConfig,
    buffer: Seq<i32>,
    samples: nat,
)
    requires
        setter_outcome(before, rejected, set),
        !rejected.ok,
        process_step(rejected, processed, buffer, samples),
    ensures
        processed == rejected,
        processed.sink == rejected.sink,
        processed.native == rejected.native,
{
}

impl<N: NativeEncoder, W: FrameSink> StreamEncoder<N, W> {
    /// Wraps a newly created native encoder.
    pub fn create(native: N) -> (r: Self)
        ensures
            r@.ok,
            r@.phase == EncoderPhase::Unconfigured,
            r@.config == initial_config(),
            r@.native == native,
            r@.sink.is_none(),
            r@.fed.len() == 0,
            r@.wf(),
    {
        StreamEncoder {
            native,
            sink: None,
            ok: true,
            phase: EncoderPhase::Unconfigured,
            config: EncoderConfig {
                bits_per_sample: 0,
                sample_rate: 0,
                channels: 0,
                compression_level: 0,
                verify: false,
                total_samples_estimate: 0,
            },
            fed: Ghost(Seq::empty()),
        }
    }

    /// Whether no error has been latched.
    pub fn is_ok(&self) -> (r: bool)
        ensures
            r == self@.ok,
    {
        self.ok
    }

    /// The phase the encoder is in.
    pub fn phase(&self) -> (r: EncoderPhase)
        ensures
            r == self@.phase,
    {
        self.phase
    }

    /// The settings accepted so far.
    pub fn config(&self) -> (r: EncoderConfig)
        ensures
            r == self@.config,
    {
        self.config
    }

    /// The native encoder.
    pub fn native(&self) -> (r: &N)
        ensures
            *r == self@.native,
    {
        &self.native
    }

    /// The write callback bound at stream initialization, if any.
    pub fn write_callback(&self) -> (r: Option<&W>)
        ensures
            r.is_some() == self@.sink.is_some(),
            r.is_some() ==> *r.unwrap() == self@.sink.unwrap(),
    {
        match &self.sink {
            Some(w) => Some(w),
            None => None,
        }
    }

    /// Whether a setter would reach the native encoder; latches the error
    /// flag when the stream has already been started.
    fn begin_setting(&mut self) -> (go: bool)
        ensures
            go == (old(self)@.ok && old(self)@.phase != EncoderPhase::Streaming
                && old(self)@.phase != EncoderPhase::Finished),
            go ==> final(self)@ == old(self)@,
            !go ==> setter_outcome(old(self)@, final(self)@, old(self)@.config),
    {
        if !self.ok {
            return false;
        }
        if self.phase == EncoderPhase::Streaming || self.phase == EncoderPhase::Finished {
            self.ok = false;
            return false;
        }
        true
    }

    /// Records the native encoder's answer to a setting.
    fn end_setting(&mut self, accepted: bool, set: EncoderConfig)
        requires
            old(self)@.wf(),
            old(self)@.ok,
            old(self)@.phase != EncoderPhase::Streaming,
            old(self)@.phase != EncoderPhase::Finished,
        ensures
            setter_outcome(old(self)@, final(self)@, set),
            final(self)@.ok == accepted,
            final(self)@.native == old(self)@.native,
            final(self)@.wf(),
    {
        self.ok = accepted;
        if accepted {
            self.config = set;
            self.phase = EncoderPhase::Configuring;
        }
    }

    /// Asks the native encoder to verify its output by decoding it again.
    pub fn set_verify(&mut self, value: bool)
        requires
            old(self)@.wf(),
        ensures
            final(self)@.wf(),
            setter_outcome(
                old(self)@,
                final(self)@,
                EncoderConfig { verify: value, ..old(self)@.config },
            ),
    {
        if self.begin_setting() {
            let accepted = self.native.set_verify(value);
            self.end_setting(accepted, EncoderConfig { verify: value, ..self.config });
        }
    }

    /// Chooses the native encoder's compression preset.
    pub fn set_compression_level(&mut self, value: u32)
        requires
            old(self)@.wf(),
        ensures
            final(self)@.wf(),
            setter_outcome(
                old(self)@,
                final(self)@,
                EncoderConfig { compression_level: value, ..old(self)@.config },
            ),
    {
        if self.begin_setting() {
            let accepted = self.native.set_compression_level(value);
            self.end_setting(accepted, EncoderConfig { compression_level: value, ..self.config });
        }
    }

    /// Sets the number of interleaved channels.
    pub fn set_channels(&mut self, value: u32)
        requires
            old(self)@.wf(),
        ensures
            final(self)@.wf(),
            setter_outcome(
                old(self)@,
                final(self)@,
                EncoderConfig { channels: value, ..old(self)@.config },
            ),
    {
        if self.begin_setting() {
            let accepted = self.native.set_channels(value);
            self.end_setting(accepted, EncoderConfig { channels: value, ..self.config });
        }
    }

    /// Sets the bit depth of the samples handed to `process_interleaved`.
    pub fn set_bits_per_sample(&mut self, value: u32)
        requires
            old(self)@.wf(),
        ensures
            final(self)@.wf(),
            setter_outcome(
                old(self)@,
                final(self)@,
                EncoderConfig { bits_per_sample: value, ..old(self)@.config },
            ),
    {
        if self.begin_setting() {
            let accepted = self.native.set_bits_per_sample(value);
            self.end_setting(accepted, EncoderConfig { bits_per_sample: value, ..self.config });
        }
    }

    /// Sets the sample rate in Hz.
    pub fn set_sample_rate(&mut self, value: u32)
        requires
            old(self)@.wf(),
        ensures
            final(self)@.wf(),
            setter_outcome(
                old(self)@,
                final(self)@,
                EncoderConfig { sample_rate: value, ..old(self)@.config },
            ),
    {
        if self.begin_setting() {
            let accepted = self.native.set_sample_rate(value);
            self.end_setting(accepted, EncoderConfig { sample_rate: value, ..self.config });
        }
    }

    /// Tells the native encoder how many samples to expect in all.
    pub fn set_total_samples_estimate(&mut self, value: u64)
        requires
            old(self)@.wf(),
        ensures
            final(self)@.wf(),
            setter_outcome(
                old(self)@,
                final(self)@,
                EncoderConfig { total_samples_estimate: value, ..old(self)@.config },
            ),
    {
        if self.begin_setting() {
            let accepted = self.native.set_total_samples_estimate(value);
            self.end_setting(accepted, EncoderConfig { total_samples_estimate: value, ..self.config });
        }
    }

    /// Starts the non-seekable container stream and binds `write_cb`, which
    /// from then on receives every compressed frame. Only a healthy encoder
    /// that has not started a stream reaches the native encoder; calling it
    /// again, or after `finish`, latches the error flag.
    pub fn init_ogg_stream_non_seekable(&mut self, write_cb: W)
        requires
            old(self)@.wf(),
        ensures
            final(self)@.wf(),
            !old(self)@.ok ==> final(self)@ == old(self)@,
            old(self)@.ok && (old(self)@.phase == EncoderPhase::Streaming || old(self)@.phase
                == EncoderPhase::Finished) ==> final(self)@ == (EncoderState {
                ok: false,
                ..old(self)@
            }),
            old(self)@.ok && old(self)@.phase != EncoderPhase::Streaming && old(self)@.phase
                != EncoderPhase::Finished ==> {
                &&& final(self)@.config == old(self)@.config
                &&& final(self)@.fed == old(self)@.fed
                &&& final(self)@.ok ==> final(self)@.phase == EncoderPhase::Streaming
                    && final(self)@.sink == Some(write_cb)
                &&& !final(self)@.ok ==> final(self)@.phase == old(self)@.phase
                    && final(self)@.sink == old(self)@.sink
            },
    {
        if !self.ok {
            return;
        }
        if self.phase == EncoderPhase::Streaming || self.phase == EncoderPhase::Finished {
            self.ok = false;
            return;
        }
        let accepted = self.native.init_ogg_stream();
        self.ok = accepted;
        if accepted {
            self.sink = Some(write_cb);
            self.phase = EncoderPhase::Streaming;
        }
    }

    /// Feeds `samples` interleaved frames of `buffer` to the native encoder,
    /// which may hand compressed frames to the bound write callback. A zero
    /// count is passed on too. Before the stream is started, or after it was
    /// finished, this latches the error flag; after an error it does nothing.
    pub fn process_interleaved(&mut self, buffer: &[i32], samples: usize)
        requires
            old(self)@.wf(),
        ensures
            final(self)@.wf(),
            process_step(old(self)@, final(self)@, buffer@, samples as nat),
    {
        if !self.ok {
            return;
        }
        if self.phase != EncoderPhase::Streaming {
            self.ok = false;
            return;
        }
        match self.sink.take() {
            Some(mut sink) => {
                self.ok = self.native.process_interleaved(buffer, samples, &mut sink);
                self.sink = Some(sink);
                self.fed = Ghost(self.fed@.push((buffer@, samples as nat)));
            },
            None => {
                self.ok = false;
            },
        }
    }

    /// Flushes the trailing frames to the write callback and ends the stream.
    /// Does nothing unless the encoder is healthy and streaming.
    pub fn finish(&mut self)
        requires
            old(self)@.wf(),
        ensures
            final(self)@.wf(),
            !(old(self)@.ok && old(self)@.phase == EncoderPhase::Streaming) ==> final(self)@
                == old(self)@,
            old(self)@.ok && old(self)@.phase == EncoderPhase::Streaming ==> final(self)@.phase
                == EncoderPhase::Finished,
            final(self)@.config == old(self)@.config,
            final(self)@.fed == old(self)@.fed,
            final(self)@.sink.is_some() == old(self)@.sink.is_some(),
    {
        if !self.ok || self.phase != EncoderPhase::Streaming {
            return;
        }
        match self.sink.take() {
            Some(mut sink) => {
                self.ok = self.native.finish(&mut sink);
                self.sink = Some(sink);
            },
            None => {
                self.ok = false;
            },
        }
        self.phase = EncoderPhase::Finished;
    }
}

} // verus!
