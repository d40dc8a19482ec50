use webdriver_bidi::addr::{resolve, socket_text_of, ws_url, AddrError, IpAddress, SocketAddress};

#[test]
fn accepts_ipv4_loopback() {
    let a = resolve("127.0.0.1", 9222, Some(IpAddress::V4(0x7f00_0001))).unwrap();
    assert_eq!(socket_text_of(a), "127.0.0.1:9222");
}

#[test]
fn accepts_ipv6_loopback() {
    let a = resolve("::1", 9222, Some(IpAddress::V6(1))).unwrap();
    assert!(matches!(a.ip, IpAddress::V6(_)));
    assert_eq!(a.port, 9222);
    assert_eq!(socket_text_of(a), "[::1]:9222");
}

#[test]
fn accepts_any_127_slash_8() {
    assert!(resolve("127.0.0.2", 9222, Some(IpAddress::V4(0x7f00_0002))).is_ok());
    assert!(resolve("127.255.0.9", 9222, Some(IpAddress::V4(0x7fff_0009))).is_ok());
}

#[test]
fn rejects_non_loopback_ip() {
    let e = resolve("10.0.0.5", 9222, Some(IpAddress::V4(0x0a00_0005))).unwrap_err();
    assert!(matches!(e, AddrError::NotLoopback(IpAddress::V4(0x0a00_0005))));
}

#[test]
fn rejects_hostname() {
    let e = resolve("localhost", 9222, None).unwrap_err();
    match e {
        AddrError::NotAnIpLiteral(h) => assert_eq!(h, "localhost"),
        other => panic!("expected NotAnIpLiteral, got {other:?}"),
    }
}

#[test]
fn rejects_zero_port() {
    assert!(matches!(
        resolve("127.0.0.1", 0, Some(IpAddress::V4(0x7f00_0001))),
        Err(AddrError::InvalidPort)
    ));
}

#[test]
fn zero_port_is_checked_before_the_host() {
    assert!(matches!(resolve("localhost", 0, None), Err(AddrError::InvalidPort)));
    assert!(matches!(
        resolve("10.0.0.5", 0, Some(IpAddress::V4(0x0a00_0005))),
        Err(AddrError::InvalidPort)
    ));
}

#[test]
fn mapped_and_unspecified_ipv6_are_not_loopback() {
    // ::ffff:127.0.0.1 and :: are not ::1.
    let mapped = IpAddress::V6(0xffff_7f00_0001);
    assert!(!mapped.is_loopback());
    assert!(!IpAddress::V6(0).is_loopback());
    assert!(matches!(resolve("::", 1, Some(IpAddress::V6(0))), Err(AddrError::NotLoopback(_))));
}

#[test]
fn loopback_boundaries() {
    assert!(!IpAddress::V4(0x7eff_ffff).is_loopback());
    assert!(IpAddress::V4(0x7f00_0000).is_loopback());
    assert!(IpAddress::V4(0x7fff_ffff).is_loopback());
    assert!(!IpAddress::V4(0x8000_0000).is_loopback());
}

fn v6(groups: [u16; 8]) -> IpAddress {
    let mut bits: u128 = 0;
    for g in groups {
        bits = (bits << 16) | g as u128;
    }
    IpAddress::V6(bits)
}

fn text(ip: IpAddress, port: u16) -> String {
    socket_text_of(SocketAddress { ip, port })
}

#[test]
fn ipv6_text_compresses_the_first_longest_zero_run() {
    assert_eq!(text(v6([0; 8]), 1), "[::]:1");
    assert_eq!(text(v6([1, 0, 0, 2, 0, 0, 0, 3]), 1), "[1:0:0:2::3]:1");
    assert_eq!(text(v6([1, 0, 0, 2, 0, 0, 3, 4]), 1), "[1::2:0:0:3:4]:1");
    assert_eq!(text(v6([0x2001, 0xdb8, 0, 1, 0, 0, 0, 0]), 80), "[2001:db8:0:1::]:80");
    assert_eq!(text(v6([1, 0, 2, 0, 3, 0, 4, 0]), 9), "[1:0:2:0:3:0:4:0]:9");
    assert_eq!(text(v6([0, 0, 0, 0, 0, 0xffff, 0x7f00, 1]), 2), "[::ffff:127.0.0.1]:2");
    assert_eq!(text(v6([0xfe80, 0, 0, 0, 0xabcd, 0, 0, 0xffff]), 3), "[fe80::abcd:0:0:ffff]:3");
}

#[test]
fn urls_are_plaintext_websocket() {
    let a = SocketAddress { ip: IpAddress::V4(0x7f00_0001), port: 9222 };
    assert_eq!(ws_url(a, "/session"), "ws://127.0.0.1:9222/session");
    let b = SocketAddress { ip: IpAddress::V6(1), port: 4444 };
    assert_eq!(ws_url(b, "/"), "ws://[::1]:4444/");
}

#[test]
fn refusal_messages() {
    assert_eq!(
        AddrError::NotAnIpLiteral("localhost".into()).message(),
        "host \"localhost\" is not an IP literal; webdriver-bidi accepts only loopback literals such as 127.0.0.1 or ::1"
    );
    assert_eq!(
        AddrError::NotLoopback(IpAddress::V4(0x0a00_0005)).message(),
        "host 10.0.0.5 is not a loopback address; scope is loopback-only"
    );
    assert_eq!(
        AddrError::NotLoopback(v6([0x2001, 0xdb8, 0, 0, 0, 0, 0, 1])).message(),
        "host 2001:db8::1 is not a loopback address; scope is loopback-only"
    );
    assert_eq!(AddrError::InvalidPort.message(), "port must be non-zero");
}
