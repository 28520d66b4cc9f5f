use tor_proxy::addr::{IpAddress, SocketAddress};
use tor_proxy::http::HttpHandshake;
use tor_proxy::socks5::Socks5Handshake;
use tor_proxy::types::{HandshakeError, HsAction, ProxyAuth};

fn target() -> SocketAddress {
    SocketAddress { ip: IpAddress::V4([1, 2, 3, 4]), port: 80 }
}

fn auth(user: &str, pass: &str) -> Option<ProxyAuth> {
    Some(ProxyAuth { username: user.to_string(), password: pass.to_string() })
}

/// Drives one action, asserting it sends `expect_data` and then reads
/// `expect_read` bytes.
fn expect_send(act: &HsAction, expect_data: &[u8], expect_read: usize) {
    match act {
        HsAction::Send { data, read_len } => {
            assert_eq!(data.as_slice(), expect_data);
            assert_eq!(*read_len, expect_read);
        }
        _ => panic!("expected a send action"),
    }
}

#[test]
fn socks5_no_auth_success_consumes_exact_bytes() {
    let (mut hs, act) = Socks5Handshake::start(&target(), &None).unwrap();
    // greeting: version 5, one method, no-auth
    expect_send(&act, &[0x05, 0x01, 0x00], 2);
    // proxy selects no-auth: the connect request follows
    let act = hs.step(&[0x05, 0x00]);
    expect_send(
        &act,
        &[0x05, 0x01, 0x00, 0x01, 1, 2, 3, 4, 0x00, 0x50],
        4,
    );
    // success reply with an IPv4 bound address: 6 more bytes, no more
    let act = hs.step(&[0x05, 0x00, 0x00, 0x01]);
    match act {
        HsAction::ReadMore { read_len } => assert_eq!(read_len, 6),
        _ => panic!("expected a read action"),
    }
    let act = hs.step(&[9, 9, 9, 9, 9, 9]);
    assert!(matches!(act, HsAction::Done));
}

#[test]
fn socks5_ipv6_target_connect_request() {
    let t = SocketAddress { ip: IpAddress::V6([0xfe80, 0, 0, 0, 0, 0, 0, 1]), port: 443 };
    let (mut hs, _act) = Socks5Handshake::start(&t, &None).unwrap();
    let act = hs.step(&[0x05, 0x00]);
    let mut expected = vec![0x05, 0x01, 0x00, 0x04];
    expected.extend_from_slice(&[
        0xfe, 0x80, 0, 0, 0, 0, 0, 0, 0, 0, 0, 0, 0, 0, 0, 1,
    ]);
    expected.extend_from_slice(&[0x01, 0xbb]);
    expect_send(&act, &expected, 4);
}

#[test]
fn socks5_auth_rejected_issues_no_connect_request() {
    let (mut hs, act) = Socks5Handshake::start(&target(), &auth("user", "pass")).unwrap();
    // greeting offers no-auth and username/password
    expect_send(&act, &[0x05, 0x02, 0x00, 0x02], 2);
    // proxy selects username/password: the sub-negotiation follows
    let act = hs.step(&[0x05, 0x02]);
    expect_send(
        &act,
        &[0x01, 4, b'u', b's', b'e', b'r', 4, b'p', b'a', b's', b's'],
        2,
    );
    // auth status 0x01: rejected, and the machine is terminal — no
    // connect request is ever issued afterwards
    let act = hs.step(&[0x01, 0x01]);
    match act {
        HsAction::Fail { error } => assert_eq!(error, HandshakeError::AuthenticationFailed),
        _ => panic!("expected a failure"),
    }
}

#[test]
fn socks5_auth_accepted_proceeds_to_connect() {
    let (mut hs, _act) = Socks5Handshake::start(&target(), &auth("u", "p")).unwrap();
    let _ = hs.step(&[0x05, 0x02]);
    let act = hs.step(&[0x01, 0x00]);
    expect_send(
        &act,
        &[0x05, 0x01, 0x00, 0x01, 1, 2, 3, 4, 0x00, 0x50],
        4,
    );
}

#[test]
fn socks5_auth_offered_but_no_auth_selected() {
    let (mut hs, _act) = Socks5Handshake::start(&target(), &auth("u", "p")).unwrap();
    let act = hs.step(&[0x05, 0x00]);
    expect_send(
        &act,
        &[0x05, 0x01, 0x00, 0x01, 1, 2, 3, 4, 0x00, 0x50],
        4,
    );
}

#[test]
fn socks5_invalid_version_in_method_reply() {
    let (mut hs, _act) = Socks5Handshake::start(&target(), &None).unwrap();
    let act = hs.step(&[0x04, 0x00]);
    match act {
        HsAction::Fail { error } => assert_eq!(error, HandshakeError::InvalidVersion),
        _ => panic!("expected a failure"),
    }
}

#[test]
fn socks5_no_acceptable_method() {
    let (mut hs, _act) = Socks5Handshake::start(&target(), &None).unwrap();
    let act = hs.step(&[0x05, 0xff]);
    match act {
        HsAction::Fail { error } => assert_eq!(error, HandshakeError::NoAcceptableMethod),
        _ => panic!("expected a failure"),
    }
}

#[test]
fn socks5_connect_refused_carries_code() {
    let (mut hs, _act) = Socks5Handshake::start(&target(), &None).unwrap();
    let _ = hs.step(&[0x05, 0x00]);
    let act = hs.step(&[0x05, 0x05, 0x00, 0x01]);
    match act {
        HsAction::Fail { error } => {
            assert_eq!(error, HandshakeError::ConnectRefused { code: 0x05 })
        }
        _ => panic!("expected a failure"),
    }
}

#[test]
fn socks5_invalid_version_in_connect_reply() {
    let (mut hs, _act) = Socks5Handshake::start(&target(), &None).unwrap();
    let _ = hs.step(&[0x05, 0x00]);
    let act = hs.step(&[0x04, 0x00, 0x00, 0x01]);
    match act {
        HsAction::Fail { error } => assert_eq!(error, HandshakeError::InvalidVersion),
        _ => panic!("expected a failure"),
    }
}

#[test]
fn socks5_unknown_bound_address_type() {
    let (mut hs, _act) = Socks5Handshake::start(&target(), &None).unwrap();
    let _ = hs.step(&[0x05, 0x00]);
    let act = hs.step(&[0x05, 0x00, 0x00, 0x09]);
    match act {
        HsAction::Fail { error } => assert_eq!(error, HandshakeError::UnknownAddressType),
        _ => panic!("expected a failure"),
    }
}

#[test]
fn socks5_ipv6_and_domain_bound_addresses() {
    // IPv6 bound address: 18 trailing bytes
    let (mut hs, _act) = Socks5Handshake::start(&target(), &None).unwrap();
    let _ = hs.step(&[0x05, 0x00]);
    let act = hs.step(&[0x05, 0x00, 0x00, 0x04]);
    assert!(matches!(act, HsAction::ReadMore { read_len: 18 }));
    let act = hs.step(&[0u8; 18]);
    assert!(matches!(act, HsAction::Done));

    // domain-name bound address: length byte, then name plus port
    let (mut hs, _act) = Socks5Handshake::start(&target(), &None).unwrap();
    let _ = hs.step(&[0x05, 0x00]);
    let act = hs.step(&[0x05, 0x00, 0x00, 0x03]);
    assert!(matches!(act, HsAction::ReadMore { read_len: 1 }));
    let act = hs.step(&[7]);
    assert!(matches!(act, HsAction::ReadMore { read_len: 9 }));
    let act = hs.step(&[0u8; 9]);
    assert!(matches!(act, HsAction::Done));
}

#[test]
fn socks5_overlong_credentials_refused() {
    let long = "x".repeat(256);
    let res = Socks5Handshake::start(&target(), &auth(&long, "p"));
    match res {
        Err(e) => assert_eq!(e, HandshakeError::CredentialsTooLong),
        Ok(_) => panic!("expected a refusal"),
    }
}

fn drive_http(hs: &mut HttpHandshake, response: &[u8]) -> HsAction {
    let mut last = HsAction::ReadMore { read_len: 1 };
    for &b in response {
        last = hs.step(b);
        match &last {
            HsAction::ReadMore { .. } => continue,
            _ => break,
        }
    }
    last
}

#[test]
fn http_connect_request_and_success() {
    let (mut hs, act) = HttpHandshake::start(&target(), &None);
    expect_send(
        &act,
        b"CONNECT 1.2.3.4:80 HTTP/1.1\r\nHost: 1.2.3.4:80\r\n\r\n",
        1,
    );
    let act = drive_http(&mut hs, b"HTTP/1.1 200 Connection Established\r\n\r\n");
    assert!(matches!(act, HsAction::Done));
}

#[test]
fn http_connect_basic_authorization_header() {
    let (_hs, act) = HttpHandshake::start(&target(), &auth("user", "pass"));
    expect_send(
        &act,
        b"CONNECT 1.2.3.4:80 HTTP/1.1\r\nHost: 1.2.3.4:80\r\nProxy-Authorization: Basic dXNlcjpwYXNz\r\n\r\n",
        1,
    );
}

#[test]
fn http_connect_rejection_captures_status_line() {
    let (mut hs, _act) = HttpHandshake::start(&target(), &None);
    let act = drive_http(&mut hs, b"HTTP/1.1 407 Proxy Authentication Required\r\n\r\n");
    match act {
        HsAction::Fail { error } => match error {
            HandshakeError::HttpStatusRejected { line } => {
                assert_eq!(line.as_slice(), b"HTTP/1.1 407 Proxy Authentication Required");
            }
            other => panic!("unexpected error: {:?}", other),
        },
        _ => panic!("expected a failure"),
    }
}

#[test]
fn http_10_success_accepted() {
    let (mut hs, _act) = HttpHandshake::start(&target(), &None);
    let act = drive_http(&mut hs, b"HTTP/1.0 200 OK\r\n\r\n");
    assert!(matches!(act, HsAction::Done));
}

#[test]
fn http_response_without_terminator_fails_at_cap() {
    let (mut hs, _act) = HttpHandshake::start(&target(), &None);
    for k in 0..8192 {
        let act = hs.step(b'a');
        assert!(matches!(act, HsAction::ReadMore { read_len: 1 }), "byte {}", k);
    }
    let act = hs.step(b'a');
    match act {
        HsAction::Fail { error } => assert_eq!(error, HandshakeError::ResponseTooLarge),
        _ => panic!("expected a failure"),
    }
}

#[test]
fn handshake_error_messages() {
    assert_eq!(
        HandshakeError::InvalidVersion.message(),
        "invalid SOCKS5 version"
    );
    assert_eq!(
        HandshakeError::ResponseTooLarge.message(),
        "HTTP response too large"
    );
}
