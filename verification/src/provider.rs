//! The connection-provider decorator's decision side.
//!
//! `ProxyTcpProvider` wraps an arbitrary underlying provider together with
//! a proxy configuration.  For one connection attempt, `connect_plan`
//! resolves the effective configuration and hands back everything a driver
//! needs: dial the target directly, or dial the proxy and run the matching
//! handshake machine.  The driver owns the streams and the awaiting;
//! listening passes through to the underlying provider untouched, since
//! proxying applies only to outbound dials.

use vstd::prelude::*;

use crate::addr::SocketAddress;
use crate::config::{resolve_config, ProxyCallback, ProxyConfig};
use crate::http::{http_request_bytes, HttpHandshake};
use crate::socks5::{auth_too_long, greeting_bytes, Socks5Handshake};
use crate::types::{creds_of_auth, HandshakeError, HsAction};

verus! {

/// A connection provider that tunnels outbound dials through a proxy when
/// one is configured.  `inner` is the wrapped provider; it is dialed for
/// the proxy endpoint, or for the target itself when no proxy applies.
#[derive(Clone)]
pub struct ProxyTcpProvider<T, C> {
    /// The wrapped underlying provider.
    pub inner: T,
    /// The configuration fixed at construction time; dynamic behaviour
    /// comes only through a `Dynamic` resolver inside it.
    pub proxy_config: ProxyConfig<C>,
}

/// Everything a driver needs for one connection attempt.
pub enum ConnectPlan {
    /// No proxy applies: dial the target itself.
    DialDirect,
    /// Dial the proxy, then run the SOCKS5 handshake; `action` is the
    /// machine's first action.
    DialSocks5 { proxy_addr: SocketAddress, handshake: Socks5Handshake, action: HsAction },
    /// Dial the proxy, then run the HTTP CONNECT handshake; `action` is
    /// the machine's first action.
    DialHttpConnect { proxy_addr: SocketAddress, handshake: HttpHandshake, action: HsAction },
    /// The configuration cannot be carried out; do not dial at all.
    Refuse { error: HandshakeError },
}

impl<T, C> ProxyTcpProvider<T, C> {
    /// Create a new proxy TCP provider.
    pub fn new(inner: T, proxy_config: ProxyConfig<C>) -> (r: Self)
        ensures
            r.proxy_config == proxy_config,
    {
        ProxyTcpProvider { inner, proxy_config }
    }

    /// Create a direct connection provider (no proxy).
    pub fn direct(inner: T) -> (r: Self)
        ensures
            r.proxy_config is Direct,
    {
        ProxyTcpProvider { inner, proxy_config: ProxyConfig::Direct }
    }

    /// Resolves the configuration for `target` and plans the attempt.
    /// For a fixed configuration the plan is pinned exactly; for a
    /// `Dynamic` one the plan follows whatever the resolver answered, and
    /// every dial variant still carries a well-formed machine aimed at
    /// `target` with its correct opening action.
    pub fn connect_plan(&self, target: &SocketAddress) -> (plan: ConnectPlan) where
        C: ProxyCallback,

        ensures
            ({
                match self.proxy_config {
                    ProxyConfig::Direct => plan is DialDirect,
                    ProxyConfig::Socks5 { proxy_addr, auth } => {
                        if auth_too_long(auth) {
                            plan matches ConnectPlan::Refuse { error } && error
                                == HandshakeError::CredentialsTooLong
                        } else {
                            plan matches ConnectPlan::DialSocks5 {
                                proxy_addr: pa,
                                handshake: hs,
                                action: act,
                            } && pa == proxy_addr && hs.creds_view() == creds_of_auth(auth) && (
                            act matches HsAction::Send { data, read_len } && data@
                                == greeting_bytes(auth is Some) && read_len == 2)
                        }
                    },
                    ProxyConfig::HttpConnect { proxy_addr, auth } => plan
                        matches ConnectPlan::DialHttpConnect {
                        proxy_addr: pa,
                        handshake: hs,
                        action: act,
                    } && pa == proxy_addr && (act matches HsAction::Send { data, read_len } && data@
                        == http_request_bytes(*target, creds_of_auth(auth)) && read_len == 1),
                    ProxyConfig::Dynamic(_) => true,
                }
            }),
            plan matches ConnectPlan::DialSocks5 { proxy_addr: pa, handshake: hs, action: act }
                ==> hs.wf() && hs.phase is AwaitMethod && hs.target == *target && (
            act matches HsAction::Send { data, read_len } && read_len == 2),
            plan matches ConnectPlan::DialHttpConnect { proxy_addr: pa, handshake: hs, action: act }
                ==> hs.wf() && hs.phase is AwaitingResponse && hs.response@.len() == 0 && (
            act matches HsAction::Send { data, read_len } && read_len == 1),
            plan matches ConnectPlan::Refuse { error } ==> error
                == HandshakeError::CredentialsTooLong,
    {
        let resolved = resolve_config(&self.proxy_config, target);
        match resolved {
            ProxyConfig::Direct => ConnectPlan::DialDirect,
            ProxyConfig::Socks5 { proxy_addr, auth } => {
                match Socks5Handshake::start(target, &auth) {
                    Ok(pair) => {
                        let (handshake, action) = pair;
                        ConnectPlan::DialSocks5 { proxy_addr, handshake, action }
                    },
                    Err(error) => ConnectPlan::Refuse { error },
                }
            },
            ProxyConfig::HttpConnect { proxy_addr, auth } => {
                let pair = HttpHandshake::start(target, &auth);
                let (handshake, action) = pair;
                ConnectPlan::DialHttpConnect { proxy_addr, handshake, action }
            },
            ProxyConfig::Dynamic(_) => {
                proof {
                    assert(false);
                }
                ConnectPlan::DialDirect
            },
        }
    }
}

} // verus!
