//! The protocol core of a minimal SOCKS5 proxy: the wire codec, the
//! credential check, the per-connection session state machine and the
//! lockstep byte pipe. Sockets are driven by the caller.

pub mod codec;
pub mod config;
pub mod relay;
pub mod session;
pub mod socks5;
