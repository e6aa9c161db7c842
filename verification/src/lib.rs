//! A gapless audio playback core: a stateful sample-rate conversion pipeline
//! that accumulates decoded PCM chunks into fixed-size blocks, drives a
//! block-based FFT resampler, passes data through untouched when the rates
//! already match, and decides how a queue of tracks is sequenced across rate
//! changes and recoverable decode failures.
//!
//! - [`buffer`] assembles resampler input blocks from chunks of arbitrary
//!   length;
//! - [`source`] is the decode source the pipeline consumes: one track's
//!   decoded chunks, rate, and end-of-stream or failure signal;
//! - [`converter`] owns the resampler sessions and the Bypass/Active state
//!   machine;
//! - [`orchestrator`] decides how the playback loop sequences tracks.

pub mod buffer;
pub mod converter;
pub mod orchestrator;
pub mod source;
