//! Runtime proxy state and the service lifecycle.
//!
//! `RuntimeProxyState` is the single current proxy description, replaced
//! wholesale by every update and consulted by the dynamic resolver on each
//! connection attempt.  `ServiceManager` owns the start/stop lifecycle of
//! the network client's background service: starting while running returns
//! the already-bound port instead of starting a second instance, and
//! stopping while stopped is a no-op.  A driver performs the I/O the
//! returned actions call for — bootstrapping the client, spawning and
//! aborting the background task.

use vstd::prelude::*;

use crate::addr::spec_parse_socket_address;
use crate::config::{auth_view_of_info, opt_auth_view, proxy_info_addr_text, proxy_info_to_config,
    ProxyConfig};
use crate::types::{ProxyInfo, ProxyType};

verus! {

/// The single current proxy description.  `None` means: connect directly.
pub struct RuntimeProxyState {
    /// The current description, replaced wholesale by each update.
    pub current: Option<ProxyInfo>,
}

impl RuntimeProxyState {
    /// At process start no proxy is set.
    pub fn new() -> (r: Self)
        ensures
            r.current is None,
    {
        RuntimeProxyState { current: None }
    }

    /// Update the current proxy configuration.
    ///
    /// The value is replaced wholesale, never merged, so every later read
    /// observes exactly this description — no torn update is possible.
    /// Takes effect for subsequent connection attempts only.
    pub fn set_proxy(&mut self, proxy: Option<ProxyInfo>)
        ensures
            final(self).current == proxy,
    {
        self.current = proxy;
    }

    /// The proxy configuration the current description stands for, as the
    /// dynamic resolver reads it: `None` when no proxy is set or its
    /// address does not parse (callers then connect directly), otherwise
    /// the configuration matching the description's kind and credentials.
    pub fn get_current_proxy<C>(&self) -> (r: Option<ProxyConfig<C>>)
        ensures
            match self.current {
                None => r is None,
                Some(info) => match r {
                    None => spec_parse_socket_address(proxy_info_addr_text(info)) is None,
                    Some(cfg) => match spec_parse_socket_address(proxy_info_addr_text(info)) {
                        None => false,
                        Some(sav) => match (info.proxy_type, cfg) {
                            (ProxyType::Socks5, ProxyConfig::Socks5 { proxy_addr, auth }) => (
                            proxy_addr@ == sav && opt_auth_view(auth) == auth_view_of_info(info)),
                            (
                                ProxyType::HttpConnect,
                                ProxyConfig::HttpConnect { proxy_addr, auth },
                            ) => (proxy_addr@ == sav && opt_auth_view(auth) == auth_view_of_info(
                                info,
                            )),
                            _ => false,
                        },
                    },
                },
            },
    {
        match &self.current {
            None => None,
            Some(info) => proxy_info_to_config(info),
        }
    }
}

/// Whether the background service runs, and on which local port.
#[derive(Debug, Clone, Copy, PartialEq, Eq)]
pub enum ServiceStatus {
    /// No service runs.
    Stopped,
    /// The service runs, bound to this local port.
    Running { port: u16 },
}

/// What a start request asks the driver to do.
pub enum StartAction {
    /// The service already runs: hand this port back, start nothing.
    AlreadyRunning { port: u16 },
    /// Bootstrap the network client and spawn the background task bound
    /// to this port, with or without the dynamic proxy provider.
    Bootstrap { socks_port: u16, use_proxy: bool },
}

/// What a stop request asks the driver to do.
pub enum StopAction {
    /// Abort the background task.
    AbortTask,
    /// Nothing ran; nothing to do.
    Nothing,
}

/// What `start` decides, given the current status.
pub open spec fn spec_start(m: ServiceManager, socks_port: u16, use_proxy: bool) -> StartAction {
    match m.status {
        ServiceStatus::Running { port } => StartAction::AlreadyRunning { port },
        ServiceStatus::Stopped => StartAction::Bootstrap { socks_port, use_proxy },
    }
}

/// What `stop` decides and leaves behind, given the current status.
pub open spec fn spec_stop(m: ServiceManager) -> (ServiceManager, StopAction) {
    match m.status {
        ServiceStatus::Running { port } => (
            ServiceManager { status: ServiceStatus::Stopped },
            StopAction::AbortTask,
        ),
        ServiceStatus::Stopped => (m, StopAction::Nothing),
    }
}

/// The service lifecycle's decisions.  At most one service state exists
/// at a time; the bootstrap and the background task themselves are the
/// driver's, which reports a completed bootstrap through
/// `complete_start`.
pub struct ServiceManager {
    /// Whether the service runs.
    pub status: ServiceStatus,
}

impl ServiceManager {
    /// Before any start, the service is stopped.
    pub fn new() -> (r: Self)
        ensures
            r.status is Stopped,
    {
        ServiceManager { status: ServiceStatus::Stopped }
    }

    /// Start the service.
    ///
    /// If it already runs, the already-bound port is returned and nothing
    /// new is started — an idempotent no-op, not an error.  Otherwise the
    /// driver is asked to bootstrap and spawn; the state changes only
    /// when the driver reports success through `complete_start`, so a
    /// failed bootstrap leaves the service stopped with no partial state.
    pub fn start(&self, socks_port: u16, use_system_proxy: bool) -> (a: StartAction)
        ensures
            a == spec_start(*self, socks_port, use_system_proxy),
    {
        match &self.status {
            ServiceStatus::Running { port } => StartAction::AlreadyRunning { port: *port },
            ServiceStatus::Stopped => StartAction::Bootstrap {
                socks_port,
                use_proxy: use_system_proxy,
            },
        }
    }

    /// Record a completed bootstrap: the service now runs on `port`.
    pub fn complete_start(&mut self, port: u16)
        ensures
            final(self).status == (ServiceStatus::Running { port }),
    {
        self.status = ServiceStatus::Running { port };
    }

    /// Stop the service: if it runs, the driver is asked to abort the
    /// background task and the state returns to stopped; if it is already
    /// stopped, nothing happens and nothing is asked — an idempotent
    /// no-op that never fails.
    pub fn stop(&mut self) -> (a: StopAction)
        ensures
            *final(self) == spec_stop(*old(self)).0,
            a == spec_stop(*old(self)).1,
    {
        match &self.status {
            ServiceStatus::Running { port: _ } => {
                self.status = ServiceStatus::Stopped;
                StopAction::AbortTask
            },
            ServiceStatus::Stopped => StopAction::Nothing,
        }
    }

    /// Set dormant mode.  A defined no-op: the underlying client's
    /// dormant control is not wired through, so the request is accepted
    /// and has no effect on the service state or the proxy state.
    pub fn set_dormant(&self, soft_mode: bool) -> (changed: bool)
        ensures
            !changed,
    {
        let _ = soft_mode;
        false
    }
}

/// Starting an already-running service returns the already-bound port,
/// whatever arguments the call carries, and never asks for a bootstrap —
/// so two start calls in the running state return the same port and no
/// second background task is spawned.
pub proof fn lemma_start_idempotent_when_running(
    m: ServiceManager,
    sp1: u16,
    up1: bool,
    sp2: u16,
    up2: bool,
)
    requires
        m.status is Running,
    ensures
        spec_start(m, sp1, up1) == spec_start(m, sp2, up2),
        !(spec_start(m, sp1, up1) is Bootstrap),
        match m.status {
            ServiceStatus::Running { port } => spec_start(m, sp1, up1)
                == (StartAction::AlreadyRunning { port }),
            ServiceStatus::Stopped => false,
        },
{
}

/// Stopping a stopped service is a no-op: the state is unchanged and no
/// task abort is asked for, and this holds again for any number of
/// further stops.
pub proof fn lemma_stop_on_stopped_noop(m: ServiceManager)
    requires
        m.status is Stopped,
    ensures
        spec_stop(m).0 == m,
        spec_stop(m).1 is Nothing,
        spec_stop(spec_stop(m).0) == spec_stop(m),
{
}

} // verus!
