//! Proxy-aware connection support for an anonymity-network client.
//!
//! The crate models how an outbound connection attempt is routed: directly,
//! or through a SOCKS5 or HTTP CONNECT proxy whose choice may change at any
//! moment.  The two proxy handshakes are written as sans-I/O state machines
//! with exact contracts over the bytes they emit and consume; a driver that
//! owns a real stream feeds bytes in and carries the produced bytes out.

pub mod addr;
pub mod config;
pub mod http;
pub mod provider;
pub mod service;
pub mod socks5;
pub mod types;
