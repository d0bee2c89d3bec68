//! A minimal video playback loop: a decode producer publishes timestamped
//! frames into a shared, timestamp-ordered buffer, and a present consumer
//! withdraws the earliest-due frame, paces itself against the stream's
//! frame rate, and stays responsive to cancellation and seeking.
//!
//! The demuxing/decoding engine and the presentation surface are external
//! collaborators; this crate holds the synchronization pipeline itself:
//! pacing, buffering with an explicit eviction policy, cancellation,
//! seek discard, and progress reporting.

pub mod buffer;
pub mod cancel;
pub mod clock;
pub mod consumer;
pub mod frame;
pub mod metadata;
pub mod pacing;
pub mod pipeline;
pub mod producer;
pub mod rational;
