//! The proxy configuration model and its resolution.
//!
//! A `ProxyConfig` says how to reach a target: directly, through a SOCKS5 or
//! HTTP CONNECT proxy, or through a resolver consulted per target address.
//! Resolution turns any configuration into an effective one that is never
//! `Dynamic`; a resolver that yields nothing, or yields another `Dynamic`,
//! resolves to `Direct`.

use vstd::prelude::*;

use crate::addr::{
    dec_digits, parse_socket_address, spec_parse_socket_address, format_dec, SocketAddress,
};
use crate::types::{ProxyAuth, ProxyInfo, ProxyType};

verus! {

/// How to reach a target address.
#[derive(Clone)]
pub enum ProxyConfig<C> {
    /// No proxy; connect directly.
    Direct,
    /// Tunnel through a SOCKS5 proxy, authenticating when credentials are
    /// present.
    Socks5 { proxy_addr: SocketAddress, auth: Option<ProxyAuth> },
    /// Tunnel through an HTTP CONNECT proxy, authenticating when
    /// credentials are present.
    HttpConnect { proxy_addr: SocketAddress, auth: Option<ProxyAuth> },
    /// Ask a resolver per target address.
    Dynamic(C),
}

/// A resolver consulted per connection attempt.  `None` means: connect
/// directly.  A well-behaved resolver never answers with another
/// `Dynamic`; resolution guards against one that does.
pub trait ProxyCallback: Sized {
    /// The proxy configuration to use for this target, or `None` for a
    /// direct connection.
    fn get_proxy(&self, target: &SocketAddress) -> Option<ProxyConfig<Self>>;
}

impl<C> ProxyConfig<C> {
    /// Whether this configuration defers to a resolver.
    pub open spec fn is_dynamic(&self) -> bool {
        match self {
            ProxyConfig::Dynamic(_) => true,
            _ => false,
        }
    }

    /// A short description of the variant, standing in for `Debug`.
    pub fn describe(&self) -> (r: String)
        ensures
            r@ == match self {
                ProxyConfig::Direct => "Direct"@,
                ProxyConfig::Socks5 { .. } => "Socks5"@,
                ProxyConfig::HttpConnect { .. } => "HttpConnect"@,
                ProxyConfig::Dynamic(_) => "Dynamic"@,
            },
    {
        match self {
            ProxyConfig::Direct => String::from_str("Direct"),
            ProxyConfig::Socks5 { .. } => String::from_str("Socks5"),
            ProxyConfig::HttpConnect { .. } => String::from_str("HttpConnect"),
            ProxyConfig::Dynamic(_) => String::from_str("Dynamic"),
        }
    }
}

/// What a resolver's answer resolves to: `None` and a nested `Dynamic`
/// both fall back to `Direct`; any other answer is used as it stands.
pub open spec fn spec_resolve_from_lookup<C>(looked_up: Option<ProxyConfig<C>>) -> ProxyConfig<C> {
    match looked_up {
        None => ProxyConfig::Direct,
        Some(c) => if c.is_dynamic() {
            ProxyConfig::Direct
        } else {
            c
        },
    }
}

/// Full resolution: a `Dynamic` configuration resolves through the
/// resolver's answer; every other configuration resolves to itself.
pub open spec fn spec_resolve_step<C>(
    config: ProxyConfig<C>,
    looked_up: Option<ProxyConfig<C>>,
) -> ProxyConfig<C> {
    if config.is_dynamic() {
        spec_resolve_from_lookup(looked_up)
    } else {
        config
    }
}

/// Turns a resolver's answer into the effective configuration, exactly as
/// `spec_resolve_from_lookup` says.
pub fn resolve_from_lookup<C>(looked_up: Option<ProxyConfig<C>>) -> (r: ProxyConfig<C>)
    ensures
        r == spec_resolve_from_lookup(looked_up),
        !r.is_dynamic(),
{
    match looked_up {
        None => ProxyConfig::Direct,
        Some(c) => match c {
            ProxyConfig::Dynamic(_) => ProxyConfig::Direct,
            other => other,
        },
    }
}

/// Copies credentials.
pub fn clone_auth(a: &ProxyAuth) -> (r: ProxyAuth)
    ensures
        r == *a,
{
    ProxyAuth { username: a.username.clone(), password: a.password.clone() }
}

/// Copies optional credentials.
pub fn clone_opt_auth(a: &Option<ProxyAuth>) -> (r: Option<ProxyAuth>)
    ensures
        r == *a,
{
    match a {
        Some(auth) => Some(clone_auth(auth)),
        None => None,
    }
}

/// Resolves a configuration for one target address.  A non-`Dynamic`
/// configuration resolves to itself; a `Dynamic` one resolves through its
/// resolver's answer as `spec_resolve_from_lookup` says.  The result is
/// never `Dynamic`.
pub fn resolve_config<C: ProxyCallback>(config: &ProxyConfig<C>, target: &SocketAddress) -> (r:
    ProxyConfig<C>)
    ensures
        !r.is_dynamic(),
        !config.is_dynamic() ==> r == *config,
{
    match config {
        ProxyConfig::Direct => ProxyConfig::Direct,
        ProxyConfig::Socks5 { proxy_addr, auth } => ProxyConfig::Socks5 {
            proxy_addr: *proxy_addr,
            auth: clone_opt_auth(auth),
        },
        ProxyConfig::HttpConnect { proxy_addr, auth } => ProxyConfig::HttpConnect {
            proxy_addr: *proxy_addr,
            auth: clone_opt_auth(auth),
        },
        ProxyConfig::Dynamic(callback) => {
            let looked_up = callback.get_proxy(target);
            resolve_from_lookup(looked_up)
        },
    }
}

/// For every configuration that is not `Dynamic`, resolution is
/// idempotent: one resolution leaves the configuration unchanged, so a
/// second resolution — whatever either resolver lookup would have answered
/// — yields the same configuration again.
pub proof fn lemma_resolution_idempotent<C>(
    config: ProxyConfig<C>,
    first: Option<ProxyConfig<C>>,
    second: Option<ProxyConfig<C>>,
)
    requires
        !config.is_dynamic(),
    ensures
        spec_resolve_step(config, first) == config,
        spec_resolve_step(spec_resolve_step(config, first), second) == spec_resolve_step(
            config,
            first,
        ),
{
}

/// Resolving a `Dynamic` whose resolver answers `None` is equivalent to
/// `Direct`.
pub proof fn lemma_dynamic_none_is_direct<C>(config: ProxyConfig<C>)
    requires
        config.is_dynamic(),
    ensures
        spec_resolve_step(config, None) == ProxyConfig::<C>::Direct,
{
}

/// The spec-level shape of credentials: both strings as character
/// sequences.
pub struct ProxyAuthView {
    pub username: Seq<char>,
    pub password: Seq<char>,
}

impl View for ProxyAuth {
    type V = ProxyAuthView;

    open spec fn view(&self) -> ProxyAuthView {
        ProxyAuthView { username: self.username@, password: self.password@ }
    }
}

/// The view of optional credentials.
pub open spec fn opt_auth_view(a: Option<ProxyAuth>) -> Option<ProxyAuthView> {
    match a {
        Some(auth) => Some(auth@),
        None => None,
    }
}

/// The text a proxy description's address is read from: the address
/// string's bytes, a colon, and the port in decimal — the same shape a
/// socket address is parsed from.
pub open spec fn proxy_info_addr_text(info: ProxyInfo) -> Seq<u8> {
    vstd::utf8::encode_utf8(info.address@) + seq![58u8] + dec_digits(info.port as nat)
}

/// The credentials a proxy description implies: present as soon as either
/// field is present, each absent field read as empty.
pub open spec fn auth_view_of_info(info: ProxyInfo) -> Option<ProxyAuthView> {
    if info.username is Some || info.password is Some {
        Some(
            ProxyAuthView {
                username: match info.username {
                    Some(u) => u@,
                    None => Seq::empty(),
                },
                password: match info.password {
                    Some(p) => p@,
                    None => Seq::empty(),
                },
            },
        )
    } else {
        None
    }
}

/// Builds the configuration a proxy description stands for: its address
/// text is parsed as a socket address; an unparseable address yields
/// `None` (callers then connect directly); otherwise the configuration
/// matches the description's kind and credentials.
pub fn proxy_info_to_config<C>(info: &ProxyInfo) -> (r: Option<ProxyConfig<C>>)
    ensures
        match r {
            None => spec_parse_socket_address(proxy_info_addr_text(*info)) is None,
            Some(cfg) => match spec_parse_socket_address(proxy_info_addr_text(*info)) {
                None => false,
                Some(sav) => match (info.proxy_type, cfg) {
                    (ProxyType::Socks5, ProxyConfig::Socks5 { proxy_addr, auth }) => proxy_addr@
                        == sav && opt_auth_view(auth) == auth_view_of_info(*info),
                    (
                        ProxyType::HttpConnect,
                        ProxyConfig::HttpConnect { proxy_addr, auth },
                    ) => proxy_addr@ == sav && opt_auth_view(auth) == auth_view_of_info(*info),
                    _ => false,
                },
            },
        },
{
    let mut text: Vec<u8> = info.address.as_str().as_bytes_vec();
    text.push(58);
    let mut port_digits = format_dec(info.port);
    text.append(&mut port_digits);
    assert(text@ =~= proxy_info_addr_text(*info));
    match parse_socket_address(text.as_slice()) {
        None => None,
        Some(sa) => {
            let auth: Option<ProxyAuth> = if info.username.is_some() || info.password.is_some() {
                Some(
                    ProxyAuth {
                        username: match &info.username {
                            Some(u) => u.clone(),
                            None => String::new(),
                        },
                        password: match &info.password {
                            Some(p) => p.clone(),
                            None => String::new(),
                        },
                    },
                )
            } else {
                None
            };
            match info.proxy_type {
                ProxyType::Socks5 => Some(ProxyConfig::Socks5 { proxy_addr: sa, auth }),
                ProxyType::HttpConnect => Some(ProxyConfig::HttpConnect { proxy_addr: sa, auth }),
            }
        },
    }
}

} // verus!
