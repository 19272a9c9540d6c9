//! Streaming transcription session: decoding of raw PCM audio, a rolling
//! sample buffer with a hard ceiling, the cadence that decides when the
//! recognizer is run again, and the events a session hands to its consumer.

pub mod ingest;
pub mod event;
pub mod session;
pub mod trace;
pub mod format;
