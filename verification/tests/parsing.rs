use tor_proxy::addr::{format_dec, format_hex, format_ip, parse_socket_address, IpAddress};

#[test]
fn parse_ipv4_socket_address() {
    let sa = parse_socket_address(b"127.0.0.1:1080").unwrap();
    assert_eq!(sa.ip, IpAddress::V4([127, 0, 0, 1]));
    assert_eq!(sa.port, 1080);
}

#[test]
fn parse_ipv6_socket_address_full_form() {
    let sa = parse_socket_address(b"[1:2:3:4:5:6:7:8]:443").unwrap();
    assert_eq!(sa.ip, IpAddress::V6([1, 2, 3, 4, 5, 6, 7, 8]));
    assert_eq!(sa.port, 443);
}

#[test]
fn parse_ipv6_socket_address_compressed() {
    let sa = parse_socket_address(b"[::1]:443").unwrap();
    assert_eq!(sa.ip, IpAddress::V6([0, 0, 0, 0, 0, 0, 0, 1]));
    assert_eq!(sa.port, 443);

    let sa = parse_socket_address(b"[2001:db8::8:800:200C:417A]:80").unwrap();
    assert_eq!(
        sa.ip,
        IpAddress::V6([0x2001, 0xdb8, 0, 0, 0x8, 0x800, 0x200c, 0x417a])
    );

    let sa = parse_socket_address(b"[fe80::]:8080").unwrap();
    assert_eq!(sa.ip, IpAddress::V6([0xfe80, 0, 0, 0, 0, 0, 0, 0]));

    let sa = parse_socket_address(b"[::]:1").unwrap();
    assert_eq!(sa.ip, IpAddress::V6([0; 8]));
}

#[test]
fn parse_port_leading_zeros() {
    let sa = parse_socket_address(b"127.0.0.1:0080").unwrap();
    assert_eq!(sa.port, 80);
    let sa = parse_socket_address(b"127.0.0.1:00000000000065535").unwrap();
    assert_eq!(sa.port, 65535);
}

#[test]
fn parse_rejects_malformed_addresses() {
    // no port
    assert!(parse_socket_address(b"1.2.3.4").is_none());
    // empty port
    assert!(parse_socket_address(b"1.2.3.4:").is_none());
    // port out of range
    assert!(parse_socket_address(b"1.2.3.4:65536").is_none());
    // octet out of range
    assert!(parse_socket_address(b"256.1.1.1:80").is_none());
    // leading zero in an octet
    assert!(parse_socket_address(b"01.2.3.4:80").is_none());
    // too few octets
    assert!(parse_socket_address(b"1.2.3:80").is_none());
    // hostname, not an address
    assert!(parse_socket_address(b"localhost:80").is_none());
    // group of five hex digits
    assert!(parse_socket_address(b"[12345::1]:80").is_none());
    // two double colons
    assert!(parse_socket_address(b"[1::2::3]:80").is_none());
    // eight groups plus a double colon
    assert!(parse_socket_address(b"[1:2:3:4:5:6:7:8::]:80").is_none());
    // seven groups without compression
    assert!(parse_socket_address(b"[1:2:3:4:5:6:7]:80").is_none());
    // bare IPv6 without brackets reads as neither form
    assert!(parse_socket_address(b"::1:80").is_none());
    // missing colon after the bracket
    assert!(parse_socket_address(b"[::1]80").is_none());
    // empty input
    assert!(parse_socket_address(b"").is_none());
}

#[test]
fn format_decimal_and_hex() {
    assert_eq!(format_dec(0), b"0".to_vec());
    assert_eq!(format_dec(65535), b"65535".to_vec());
    assert_eq!(format_dec(1080), b"1080".to_vec());
    assert_eq!(format_hex(0), b"0".to_vec());
    assert_eq!(format_hex(0x417a), b"417a".to_vec());
    assert_eq!(format_hex(0xffff), b"ffff".to_vec());
}

#[test]
fn format_ip_text() {
    assert_eq!(format_ip(&IpAddress::V4([127, 0, 0, 1])), b"127.0.0.1".to_vec());
    assert_eq!(
        format_ip(&IpAddress::V6([0, 0, 0, 0, 0, 0, 0, 1])),
        b"0:0:0:0:0:0:0:1".to_vec()
    );
}

#[test]
fn format_then_parse_round_trip() {
    let cases = [
        IpAddress::V4([1, 2, 3, 4]),
        IpAddress::V4([255, 255, 255, 255]),
        IpAddress::V6([0xfe80, 0, 0, 0, 0x1234, 0, 0, 1]),
    ];
    for ip in cases {
        let mut text = Vec::new();
        if matches!(ip, IpAddress::V6(_)) {
            text.push(b'[');
        }
        text.extend_from_slice(&format_ip(&ip));
        if matches!(ip, IpAddress::V6(_)) {
            text.push(b']');
        }
        text.extend_from_slice(b":4242");
        let sa = parse_socket_address(&text).unwrap();
        assert_eq!(sa.ip, ip);
        assert_eq!(sa.port, 4242);
    }
}
