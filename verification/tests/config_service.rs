use tor_proxy::addr::{parse_socket_address, IpAddress, SocketAddress};
use tor_proxy::config::{
    proxy_info_to_config, resolve_config, resolve_from_lookup, ProxyCallback, ProxyConfig,
};
use tor_proxy::provider::{ConnectPlan, ProxyTcpProvider};
use tor_proxy::service::{
    RuntimeProxyState, ServiceManager, ServiceStatus, StartAction, StopAction,
};
use tor_proxy::types::{HsAction, ProxyInfo, ProxyType};

fn target() -> SocketAddress {
    SocketAddress { ip: IpAddress::V4([10, 0, 0, 1]), port: 9000 }
}

fn proxy_endpoint() -> SocketAddress {
    SocketAddress { ip: IpAddress::V4([127, 0, 0, 1]), port: 1080 }
}

/// A resolver with a fixed answer, for exercising the `Dynamic` paths.
enum TestResolver {
    AnswersNone,
    AnswersDirect,
    AnswersSocks5,
    AnswersDynamic,
}

impl ProxyCallback for TestResolver {
    fn get_proxy(&self, _target: &SocketAddress) -> Option<ProxyConfig<TestResolver>> {
        match self {
            TestResolver::AnswersNone => None,
            TestResolver::AnswersDirect => Some(ProxyConfig::Direct),
            TestResolver::AnswersSocks5 => Some(ProxyConfig::Socks5 {
                proxy_addr: proxy_endpoint(),
                auth: None,
            }),
            TestResolver::AnswersDynamic => {
                Some(ProxyConfig::Dynamic(TestResolver::AnswersNone))
            }
        }
    }
}

#[test]
fn test_proxy_config_creation() {
    let config = ProxyConfig::<()>::Socks5 {
        proxy_addr: parse_socket_address("127.0.0.1:1080".as_bytes()).unwrap(),
        auth: None,
    };

    match config {
        ProxyConfig::Socks5 { proxy_addr, .. } => {
            assert_eq!(proxy_addr.port, 1080);
        }
        _ => panic!("Wrong config type"),
    }
}

#[test]
fn resolution_is_idempotent_for_fixed_configs() {
    let t = target();
    let cfg: ProxyConfig<TestResolver> = ProxyConfig::Socks5 {
        proxy_addr: proxy_endpoint(),
        auth: None,
    };
    let once = resolve_config(&cfg, &t);
    let twice = resolve_config(&once, &t);
    match (&once, &twice) {
        (
            ProxyConfig::Socks5 { proxy_addr: a1, auth: n1 },
            ProxyConfig::Socks5 { proxy_addr: a2, auth: n2 },
        ) => {
            assert_eq!(a1, &proxy_endpoint());
            assert_eq!(a2, &proxy_endpoint());
            assert!(n1.is_none() && n2.is_none());
        }
        _ => panic!("resolution changed a fixed configuration"),
    }

    let direct: ProxyConfig<TestResolver> = ProxyConfig::Direct;
    assert!(matches!(resolve_config(&direct, &t), ProxyConfig::Direct));
}

#[test]
fn dynamic_resolving_none_is_direct() {
    let cfg = ProxyConfig::Dynamic(TestResolver::AnswersNone);
    assert!(matches!(resolve_config(&cfg, &target()), ProxyConfig::Direct));
    assert!(matches!(
        resolve_from_lookup::<TestResolver>(None),
        ProxyConfig::Direct
    ));
}

#[test]
fn dynamic_resolving_to_fixed_config_is_used() {
    let cfg = ProxyConfig::Dynamic(TestResolver::AnswersSocks5);
    match resolve_config(&cfg, &target()) {
        ProxyConfig::Socks5 { proxy_addr, auth } => {
            assert_eq!(proxy_addr, proxy_endpoint());
            assert!(auth.is_none());
        }
        _ => panic!("resolver's answer was not used"),
    }
}

#[test]
fn dynamic_resolving_to_explicit_direct() {
    let cfg = ProxyConfig::Dynamic(TestResolver::AnswersDirect);
    assert!(matches!(resolve_config(&cfg, &target()), ProxyConfig::Direct));
}

#[test]
fn dynamic_resolving_to_dynamic_falls_back_to_direct() {
    let cfg = ProxyConfig::Dynamic(TestResolver::AnswersDynamic);
    assert!(matches!(resolve_config(&cfg, &target()), ProxyConfig::Direct));
}

#[test]
fn provider_plans_direct_and_proxied_dials() {
    let direct: ProxyTcpProvider<(), TestResolver> = ProxyTcpProvider::direct(());
    assert!(matches!(direct.connect_plan(&target()), ConnectPlan::DialDirect));

    let socks = ProxyTcpProvider::<(), TestResolver>::new(
        (),
        ProxyConfig::Socks5 { proxy_addr: proxy_endpoint(), auth: None },
    );
    match socks.connect_plan(&target()) {
        ConnectPlan::DialSocks5 { proxy_addr, handshake: _, action } => {
            assert_eq!(proxy_addr, proxy_endpoint());
            match action {
                HsAction::Send { data, read_len } => {
                    assert_eq!(data, vec![0x05, 0x01, 0x00]);
                    assert_eq!(read_len, 2);
                }
                _ => panic!("expected a send action"),
            }
        }
        _ => panic!("expected a SOCKS5 dial"),
    }

    let dynamic = ProxyTcpProvider::<(), TestResolver>::new(
        (),
        ProxyConfig::Dynamic(TestResolver::AnswersSocks5),
    );
    assert!(matches!(
        dynamic.connect_plan(&target()),
        ConnectPlan::DialSocks5 { .. }
    ));

    let http = ProxyTcpProvider::<(), TestResolver>::new(
        (),
        ProxyConfig::HttpConnect { proxy_addr: proxy_endpoint(), auth: None },
    );
    assert!(matches!(
        http.connect_plan(&target()),
        ConnectPlan::DialHttpConnect { .. }
    ));
}

#[test]
fn config_describe_names_the_variant() {
    let cfg: ProxyConfig<TestResolver> = ProxyConfig::Dynamic(TestResolver::AnswersNone);
    assert_eq!(cfg.describe(), "Dynamic");
    assert_eq!(ProxyConfig::<()>::Direct.describe(), "Direct");
}

fn info(address: &str, port: u16) -> ProxyInfo {
    ProxyInfo {
        address: address.to_string(),
        port,
        proxy_type: ProxyType::Socks5,
        username: None,
        password: None,
    }
}

#[test]
fn proxy_info_builds_matching_config() {
    let i = info("127.0.0.1", 1080);
    match proxy_info_to_config::<()>(&i) {
        Some(ProxyConfig::Socks5 { proxy_addr, auth }) => {
            assert_eq!(proxy_addr, proxy_endpoint());
            assert!(auth.is_none());
        }
        _ => panic!("expected a SOCKS5 configuration"),
    }

    let mut h = info("10.1.2.3", 8080);
    h.proxy_type = ProxyType::HttpConnect;
    assert!(matches!(
        proxy_info_to_config::<()>(&h),
        Some(ProxyConfig::HttpConnect { .. })
    ));
}

#[test]
fn proxy_info_with_partial_credentials() {
    let mut i = info("127.0.0.1", 1080);
    i.username = Some("user".to_string());
    match proxy_info_to_config::<()>(&i) {
        Some(ProxyConfig::Socks5 { auth: Some(a), .. }) => {
            assert_eq!(a.username, "user");
            assert_eq!(a.password, "");
        }
        _ => panic!("expected credentials"),
    }
}

#[test]
fn proxy_info_with_unparseable_address() {
    assert!(proxy_info_to_config::<()>(&info("proxy.example.com", 1080)).is_none());
    assert!(proxy_info_to_config::<()>(&info("", 1080)).is_none());
}

#[test]
fn runtime_state_is_replaced_wholesale() {
    let mut state = RuntimeProxyState::new();
    assert!(state.get_current_proxy::<()>().is_none());

    state.set_proxy(Some(info("127.0.0.1", 1080)));
    let first = state.get_current_proxy::<()>();
    assert!(matches!(first, Some(ProxyConfig::Socks5 { .. })));

    let mut second = info("10.0.0.9", 3128);
    second.proxy_type = ProxyType::HttpConnect;
    state.set_proxy(Some(second));
    match state.get_current_proxy::<()>() {
        Some(ProxyConfig::HttpConnect { proxy_addr, .. }) => {
            assert_eq!(proxy_addr.ip, IpAddress::V4([10, 0, 0, 9]));
            assert_eq!(proxy_addr.port, 3128);
        }
        _ => panic!("update was not observed"),
    }

    state.set_proxy(None);
    assert!(state.get_current_proxy::<()>().is_none());
}

#[test]
fn start_twice_returns_same_port_and_spawns_once() {
    let mut m = ServiceManager::new();
    match m.start(9050, false) {
        StartAction::Bootstrap { socks_port, use_proxy } => {
            assert_eq!(socks_port, 9050);
            assert!(!use_proxy);
        }
        _ => panic!("expected a bootstrap"),
    }
    m.complete_start(9050);

    let a1 = m.start(9050, false);
    let a2 = m.start(9099, true);
    match (a1, a2) {
        (
            StartAction::AlreadyRunning { port: p1 },
            StartAction::AlreadyRunning { port: p2 },
        ) => {
            assert_eq!(p1, 9050);
            assert_eq!(p2, 9050);
        }
        _ => panic!("a second bootstrap was requested"),
    }
    assert_eq!(m.status, ServiceStatus::Running { port: 9050 });
}

#[test]
fn stop_on_stopped_service_is_a_noop() {
    let mut m = ServiceManager::new();
    assert!(matches!(m.stop(), StopAction::Nothing));
    assert_eq!(m.status, ServiceStatus::Stopped);

    m.complete_start(9050);
    assert!(matches!(m.stop(), StopAction::AbortTask));
    assert_eq!(m.status, ServiceStatus::Stopped);
    assert!(matches!(m.stop(), StopAction::Nothing));
}

#[test]
fn set_dormant_is_a_defined_noop() {
    let m = ServiceManager::new();
    assert!(!m.set_dormant(true));
    assert!(!m.set_dormant(false));
}
