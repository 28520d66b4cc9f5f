//! Data carried across the public boundary: the kind of proxy, the
//! description handed in by the host application, credentials, and the
//! errors a handshake can end in.

use vstd::prelude::*;

verus! {

/// Which proxy protocol to speak to the intermediary.
#[derive(Debug, Clone, Copy, PartialEq, Eq, Structural)]
pub enum ProxyType {
    Socks5,
    HttpConnect,
}

/// Proxy description handed in by the host application: a textual address,
/// a port, the protocol, and optional credentials.  Presence of either
/// credential field (not emptiness) is what triggers authenticated
/// negotiation.
#[derive(Debug, Clone)]
pub struct ProxyInfo {
    pub address: String,
    pub port: u16,
    pub proxy_type: ProxyType,
    pub username: Option<String>,
    pub password: Option<String>,
}

/// Credentials for an authenticated proxy.  Either field may be empty.
#[derive(Debug, Clone)]
pub struct ProxyAuth {
    pub username: String,
    pub password: String,
}

/// Everything a proxy handshake can fail with.
#[derive(Debug, Clone, PartialEq, Eq)]
pub enum HandshakeError {
    /// The proxy answered with a version byte other than `0x05`.
    InvalidVersion,
    /// The proxy selected no authentication method this client offers.
    NoAcceptableMethod,
    /// The proxy rejected the supplied username/password.
    AuthenticationFailed,
    /// The SOCKS5 connect reply carried a non-zero status code.
    ConnectRefused { code: u8 },
    /// The SOCKS5 connect reply named an address type this client does not know.
    UnknownAddressType,
    /// The HTTP proxy's response exceeded the hard cap before its headers ended.
    ResponseTooLarge,
    /// The HTTP proxy answered with a non-200 status; the first response line
    /// is kept for diagnostics.
    HttpStatusRejected { line: Vec<u8> },
    /// A username or password exceeds the 255 bytes a SOCKS5 request can carry.
    CredentialsTooLong,
}

impl HandshakeError {
    /// A short human-readable description, in place of `Display`.
    pub fn message(&self) -> (r: String)
        ensures
            r@ == match self {
                HandshakeError::InvalidVersion => "invalid SOCKS5 version"@,
                HandshakeError::NoAcceptableMethod => "no acceptable SOCKS5 methods"@,
                HandshakeError::AuthenticationFailed => "SOCKS5 auth failed"@,
                HandshakeError::ConnectRefused { .. } => "SOCKS5 connection failed"@,
                HandshakeError::UnknownAddressType => "unknown SOCKS5 address type"@,
                HandshakeError::ResponseTooLarge => "HTTP response too large"@,
                HandshakeError::HttpStatusRejected { .. } => "HTTP CONNECT failed"@,
                HandshakeError::CredentialsTooLong => "proxy credentials exceed 255 bytes"@,
            },
    {
        match self {
            HandshakeError::InvalidVersion => String::from_str("invalid SOCKS5 version"),
            HandshakeError::NoAcceptableMethod => String::from_str("no acceptable SOCKS5 methods"),
            HandshakeError::AuthenticationFailed => String::from_str("SOCKS5 auth failed"),
            HandshakeError::ConnectRefused { code: _ } => {
                String::from_str("SOCKS5 connection failed")
            },
            HandshakeError::UnknownAddressType => String::from_str("unknown SOCKS5 address type"),
            HandshakeError::ResponseTooLarge => String::from_str("HTTP response too large"),
            HandshakeError::HttpStatusRejected { line: _ } => {
                String::from_str("HTTP CONNECT failed")
            },
            HandshakeError::CredentialsTooLong => {
                String::from_str("proxy credentials exceed 255 bytes")
            },
        }
    }
}

/// What a handshake state machine asks its driver to do next.  The driver
/// owns the stream; the machine only decides.
pub enum HsAction {
    /// Write these bytes to the proxy, then read exactly `read_len` bytes
    /// and feed them back in.
    Send { data: Vec<u8>, read_len: usize },
    /// Read exactly `read_len` more bytes and feed them back in.
    ReadMore { read_len: usize },
    /// The tunnel is established; the stream now carries application bytes
    /// transparently.
    Done,
    /// The handshake failed; the driver must drop the stream.
    Fail { error: HandshakeError },
}

/// The UTF-8 bytes of given credentials: each field's byte encoding, when
/// credentials were given at all.
pub open spec fn creds_of_auth(auth: Option<ProxyAuth>) -> Option<(Seq<u8>, Seq<u8>)> {
    match auth {
        Some(a) => Some(
            (vstd::utf8::encode_utf8(a.username@), vstd::utf8::encode_utf8(a.password@)),
        ),
        None => None,
    }
}

} // verus!
