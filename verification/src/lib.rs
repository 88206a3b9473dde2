//! The verified core of a MoQ Transport server over QUIC/WebTransport.
pub mod codec;
pub mod framing;
pub mod control;
pub mod object;
pub mod server;
pub mod config;
