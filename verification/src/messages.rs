//! The two messages of the handshake.

pub mod verack;
pub mod version;
