use simple_http_radio::flac::{EncoderPhase, FrameSink, NativeEncoder, StreamEncoder};

/// A native encoder that records each call and accepts what it is told to.
struct RecordingNative {
    calls: Vec<String>,
    accept_settings: bool,
    accept_init: bool,
    accept_process: bool,
}

impl RecordingNative {
    fn accepting() -> RecordingNative {
        RecordingNative {
            calls: Vec::new(),
            accept_settings: true,
            accept_init: true,
            accept_process: true,
        }
    }

    fn setting(&mut self, name: &str) -> bool {
        self.calls.push(name.to_string());
        self.accept_settings
    }
}

impl NativeEncoder for RecordingNative {
    fn set_verify(&mut self, _value: bool) -> bool {
        self.setting("verify")
    }
    fn set_compression_level(&mut self, _value: u32) -> bool {
        self.setting("compression_level")
    }
    fn set_channels(&mut self, _value: u32) -> bool {
        self.setting("channels")
    }
    fn set_bits_per_sample(&mut self, _value: u32) -> bool {
        self.setting("bits_per_sample")
    }
    fn set_sample_rate(&mut self, _value: u32) -> bool {
        self.setting("sample_rate")
    }
    fn set_total_samples_estimate(&mut self, _value: u64) -> bool {
        self.setting("total_samples_estimate")
    }
    fn init_ogg_stream(&mut self) -> bool {
        self.calls.push("init".to_string());
        self.accept_init
    }
    fn process_interleaved<W: FrameSink>(&mut self, buffer: &[i32], samples: usize, sink: &mut W) -> bool {
        self.calls.push(format!("process {} {}", buffer.len(), samples));
        sink.write(&[samples as u8], samples, 0);
        self.accept_process
    }
    fn finish<W: FrameSink>(&mut self, sink: &mut W) -> bool {
        self.calls.push("finish".to_string());
        sink.write(b"end", 0, 1);
        true
    }
}

/// A write callback that keeps every frame.
struct Frames {
    frames: Vec<Vec<u8>>,
}

impl FrameSink for Frames {
    fn write(&mut self, bytes: &[u8], _samples: usize, _current_frame: usize) -> bool {
        self.frames.push(bytes.to_vec());
        true
    }
}

fn frames() -> Frames {
    Frames { frames: Vec::new() }
}

#[test]
fn setters_record_accepted_settings() {
    let mut e: StreamEncoder<RecordingNative, Frames> = StreamEncoder::create(RecordingNative::accepting());
    assert!(e.is_ok());
    assert_eq!(e.phase(), EncoderPhase::Unconfigured);
    e.set_bits_per_sample(16);
    e.set_sample_rate(44100);
    e.set_channels(2);
    e.set_compression_level(5);
    e.set_verify(true);
    e.set_total_samples_estimate(1000);
    assert!(e.is_ok());
    assert_eq!(e.phase(), EncoderPhase::Configuring);
    let c = e.config();
    assert_eq!(c.bits_per_sample, 16);
    assert_eq!(c.sample_rate, 44100);
    assert_eq!(c.channels, 2);
    assert_eq!(c.compression_level, 5);
    assert!(c.verify);
    assert_eq!(c.total_samples_estimate, 1000);
    assert_eq!(e.native().calls.len(), 6);
}

#[test]
fn rejected_setting_latches_error() {
    let mut native = RecordingNative::accepting();
    native.accept_settings = false;
    let mut e: StreamEncoder<RecordingNative, Frames> = StreamEncoder::create(native);
    e.set_channels(9);
    assert!(!e.is_ok());
    assert_eq!(e.config().channels, 0);
    e.set_sample_rate(44100);
    e.init_ogg_stream_non_seekable(frames());
    assert_eq!(e.native().calls, vec!["channels".to_string()]);
    assert!(e.write_callback().is_none());
    assert!(!e.is_ok());
}

#[test]
fn setter_after_init_changes_nothing_and_latches() {
    let mut e: StreamEncoder<RecordingNative, Frames> = StreamEncoder::create(RecordingNative::accepting());
    e.set_channels(2);
    e.init_ogg_stream_non_seekable(frames());
    assert!(e.is_ok());
    assert_eq!(e.phase(), EncoderPhase::Streaming);
    e.set_channels(6);
    assert_eq!(e.config().channels, 2);
    assert_eq!(e.phase(), EncoderPhase::Streaming);
    assert!(!e.is_ok());
    assert_eq!(e.native().calls, vec!["channels".to_string(), "init".to_string()]);
}

#[test]
fn setter_after_init_on_failed_encoder_keeps_ok() {
    let mut native = RecordingNative::accepting();
    native.accept_process = false;
    let mut e: StreamEncoder<RecordingNative, Frames> = StreamEncoder::create(native);
    e.init_ogg_stream_non_seekable(frames());
    e.process_interleaved(&[1, 2], 1);
    assert!(!e.is_ok());
    e.set_sample_rate(8000);
    e.set_verify(true);
    assert!(!e.is_ok());
    assert_eq!(e.config().sample_rate, 0);
    assert_eq!(e.native().calls.len(), 2);
}

#[test]
fn process_after_failed_setter_leaves_callback_untouched() {
    let mut native = RecordingNative::accepting();
    native.accept_settings = false;
    let mut e: StreamEncoder<RecordingNative, Frames> = StreamEncoder::create(native);
    e.set_verify(true);
    e.process_interleaved(&[1, 2, 3, 4], 2);
    assert!(!e.is_ok());
    assert!(e.write_callback().is_none());
    assert_eq!(e.native().calls, vec!["verify".to_string()]);
}

#[test]
fn process_after_error_in_stream_emits_nothing() {
    let mut native = RecordingNative::accepting();
    native.accept_process = false;
    let mut e: StreamEncoder<RecordingNative, Frames> = StreamEncoder::create(native);
    e.init_ogg_stream_non_seekable(frames());
    e.process_interleaved(&[1, 2], 1);
    assert!(!e.is_ok());
    assert_eq!(e.write_callback().unwrap().frames.len(), 1);
    e.process_interleaved(&[3, 4], 1);
    e.finish();
    assert_eq!(e.write_callback().unwrap().frames.len(), 1);
    assert_eq!(e.native().calls.len(), 2);
}

#[test]
fn process_hands_frames_to_callback() {
    let mut e: StreamEncoder<RecordingNative, Frames> = StreamEncoder::create(RecordingNative::accepting());
    e.init_ogg_stream_non_seekable(frames());
    e.process_interleaved(&[1, 2, 3, 4], 2);
    e.process_interleaved(&[], 0);
    assert!(e.is_ok());
    assert_eq!(e.write_callback().unwrap().frames, vec![vec![2u8], vec![0u8]]);
    assert_eq!(e.native().calls[1], "process 4 2");
    assert_eq!(e.native().calls[2], "process 0 0");
}

#[test]
fn process_before_init_latches_error() {
    let mut e: StreamEncoder<RecordingNative, Frames> = StreamEncoder::create(RecordingNative::accepting());
    e.process_interleaved(&[1], 1);
    assert!(!e.is_ok());
    assert!(e.native().calls.is_empty());
}

#[test]
fn second_init_latches_error() {
    let mut e: StreamEncoder<RecordingNative, Frames> = StreamEncoder::create(RecordingNative::accepting());
    e.init_ogg_stream_non_seekable(frames());
    e.init_ogg_stream_non_seekable(frames());
    assert!(!e.is_ok());
    assert_eq!(e.native().calls, vec!["init".to_string()]);
}

#[test]
fn failed_init_latches_error() {
    let mut native = RecordingNative::accepting();
    native.accept_init = false;
    let mut e: StreamEncoder<RecordingNative, Frames> = StreamEncoder::create(native);
    e.init_ogg_stream_non_seekable(frames());
    assert!(!e.is_ok());
    assert!(e.write_callback().is_none());
    assert_eq!(e.phase(), EncoderPhase::Unconfigured);
}

#[test]
fn finish_flushes_and_ends_stream() {
    let mut e: StreamEncoder<RecordingNative, Frames> = StreamEncoder::create(RecordingNative::accepting());
    e.init_ogg_stream_non_seekable(frames());
    e.finish();
    assert!(e.is_ok());
    assert_eq!(e.phase(), EncoderPhase::Finished);
    assert_eq!(e.write_callback().unwrap().frames, vec![b"end".to_vec()]);
    e.process_interleaved(&[1], 1);
    assert!(!e.is_ok());
}
