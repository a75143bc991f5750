//! Verified core of a clipboard image watcher.
//!
//! The library converts raw RGBA pixel buffers to a canonical PNG encoding
//! and a base64 transport string, fingerprints the compressed bytes,
//! suppresses re-delivery of an unchanged image, and drives the lifecycle
//! of the background poll loop as a state machine.  All clipboard and timer
//! I/O stays outside; the functions here take and return plain values.

pub mod codec;
pub mod dedup;
pub mod errors;
pub mod fingerprint;
pub mod monitor;
pub mod pipeline;
pub mod settings;
