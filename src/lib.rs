//! Live audio capture, lossless streaming encoding and delivery of the
//! compressed stream to HTTP clients.
//!
//! The modules hold the logic of the pipeline: the device format, the sample
//! normalizer, the latching encoder state machine, the delivery sink and the
//! per-request capture session. Device I/O, the native encoder binding and the
//! HTTP server live outside the library and drive it.

pub mod format;
pub mod normalize;
pub mod flac;
pub mod delivery;
pub mod session;
pub mod http;
