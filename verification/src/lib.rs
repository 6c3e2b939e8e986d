//! An admission-controlled single-worker transcription service core.
//!
//! The library holds the verified logic of the service: decoding raw PCM
//! payloads into integer samples, the bounded FIFO job dispatcher with its
//! admission control and request/response correlation, the single-use result
//! channel, the worker lifecycle, and the mapping of outcomes to boundary
//! responses. Process plumbing (HTTP, CLI parsing, the inference engines)
//! lives outside the library and hands it plain values.

pub mod audio;
pub mod boundary;
pub mod channel;
pub mod config;
pub mod dispatcher;
pub mod worker;
