//! Verified core of a media ingestion and delivery pipeline.
//!
//! The library covers the media identifier codec, the per-kind record store,
//! probe validation, the transcode step machines, and the delivery resolver.
//! Process execution, file I/O and HTTP framing live outside the library and
//! talk to it through plain values.

pub mod delivery;
pub mod errors;
pub mod ident;
pub mod pipeline;
pub mod probe;
pub mod record;
pub mod store;
pub mod text;
pub mod upload;
pub mod user;
