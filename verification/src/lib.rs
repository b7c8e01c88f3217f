//! Typed commands and responses for a media player that is driven over a
//! line-delimited JSON protocol, and the playback operations built on them.
//!
//! The crate performs no input or output. It says what is to be sent,
//! takes what came back, and decides what follows; the caller owns the byte
//! stream and the JSON text on it.

pub mod binary32;
pub mod domain;
pub mod exchange;
pub mod framing;
pub mod service;
pub mod session;
pub mod title;
