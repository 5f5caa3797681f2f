//! Verified core of a live meeting-transcription engine.
//!
//! Microphone and system audio are captured side by side, mixed, cut into
//! chunks and sent to a local speech-to-text service; the segments that
//! come back are merged into sentences. This crate holds the decisions of
//! that pipeline, each with a contract that is proved:
//!
//! - [`session`]: start, stop and ordered teardown of a recording session;
//! - [`pipeline`]: one tick of the mixing loop, built from [`mixer`],
//!   [`chunk`] and [`resample`];
//! - [`wire`] and [`retry`]: the payload of a chunk and the schedule of
//!   its delivery;
//! - [`transcript`]: the sentence accumulator, with [`text`],
//!   [`timestamp`] and [`fingerprint`] beneath it;
//! - [`error`]: the errors of the pipeline;
//! - [`clock`]: the monotonic clock.
//!
//! Capturing audio, talking to the service, sleeping and emitting events
//! are left to the caller, which carries out what the functions here
//! decide.

pub mod chunk;
pub mod clock;
pub mod error;
pub mod fingerprint;
pub mod mixer;
pub mod pipeline;
pub mod resample;
pub mod retry;
pub mod session;
pub mod text;
pub mod timestamp;
pub mod transcript;
pub mod wire;
