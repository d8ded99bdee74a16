//! A light-client library for handshake-ready nodes in substrate-based
//! peer-to-peer networks.
//!
//! The crate implements the connection-upgrade stack used when two peers
//! first meet: `multistream_select` negotiation, the Noise-XX handshake
//! bound to a long-term identity key, length-prefixed secure framing, and
//! the per-connection state machine that drives both the dialer and the
//! listener role through these stages.
//!
//! All protocol logic is free of I/O: the state machine consumes events
//! (bytes that arrived, a completed write) and yields actions (bytes to
//! write, byte counts to read), so that a thin driver can run it over any
//! socket.

pub mod error;
pub mod identity;
pub mod handshake;
pub mod multistream_select;
pub mod noise;
pub mod varint;
