use std::collections::HashSet;
use kakuremino::transport::{check_onion_address, i2p, nym, shadowsocks, tor};
use kakuremino::{DirectTransport, Error, IsolationToken, MockTransport, Socks5Transport, TransportCapability};

#[test]
fn direct_transport_name() {
    let t = DirectTransport::new();
    assert_eq!(t.name(), "direct");
}

#[test]
fn is_always_ready() {
    let t = DirectTransport::new();
    assert!(t.is_ready());
}

#[test]
fn direct_onion_not_supported() {
    let t = DirectTransport::new();
    let e = t.connect_onion_refusal();
    assert_eq!(
        e,
        Error::Transport("direct transport does not support .onion addresses".into())
    );
}

#[test]
fn direct_addresses_and_errors() {
    let t = DirectTransport::default();
    assert_eq!(t.connect_address("192.0.2.1", 1), "192.0.2.1:1");
    assert_eq!(t.resolve_query("example.com"), "example.com:0");
    assert_eq!(
        t.connect_failure("192.0.2.1", 1, "connection refused"),
        Error::Connection("192.0.2.1:1: connection refused".into())
    );
    assert_eq!(
        t.resolve_failure("nowhere.invalid", "no such host"),
        Error::Connection("DNS resolve nowhere.invalid: no such host".into())
    );
}

#[test]
fn direct_resolve_outcome() {
    let t = DirectTransport::new();
    assert_eq!(t.resolve_outcome("example.com", vec![1u8, 2]), Ok(vec![1u8, 2]));
    assert_eq!(
        t.resolve_outcome("example.com", Vec::<u8>::new()),
        Err(Error::Connection("no addresses found for example.com".into()))
    );
}

#[test]
fn mock_transport_name() {
    let t = MockTransport::new(true);
    assert_eq!(t.name(), "mock");
}

#[test]
fn mock_transport_ready() {
    let t = MockTransport::new(true);
    assert!(t.is_ready());

    let t = MockTransport::new(false);
    assert!(!t.is_ready());
}

#[test]
fn mock_transport_connect_fails() {
    let t = MockTransport::new(true);
    assert_eq!(
        t.connect_refusal("example.com", 80),
        Error::Transport("mock transport: connect to example.com:80".into())
    );
}

#[test]
fn mock_transport_onion_fails() {
    let t = MockTransport::new(true);
    assert_eq!(
        t.connect_onion_refusal("test.onion", 80),
        Error::Transport("mock transport: connect_onion to test.onion:80".into())
    );
}

#[test]
fn mock_transport_resolve_fails() {
    let t = MockTransport::new(true);
    assert_eq!(
        t.resolve_refusal("example.com"),
        Error::Transport("mock transport: resolve example.com".into())
    );
}

#[test]
fn mock_transport_clone_eq() {
    let t1 = MockTransport::new(true);
    let t2 = t1.clone();
    assert_eq!(t1, t2);
    assert_ne!(t1, MockTransport::new(false));
}

#[test]
fn mock_transport_capabilities_empty() {
    let t = MockTransport::new(true);
    assert!(t.capabilities().is_empty());
}

#[test]
fn transport_capability_display() {
    assert_eq!(TransportCapability::OnionRouting.to_string(), "onion_routing");
    assert_eq!(TransportCapability::IpAnonymity.to_string(), "ip_anonymity");
    assert_eq!(
        TransportCapability::StreamIsolation.to_string(),
        "stream_isolation"
    );
    assert_eq!(TransportCapability::DnsResolution.to_string(), "dns_resolution");
    assert_eq!(TransportCapability::DpiResistant.to_string(), "dpi_resistant");
}

#[test]
fn transport_capability_names_distinct() {
    let all = [
        TransportCapability::OnionRouting,
        TransportCapability::IpAnonymity,
        TransportCapability::StreamIsolation,
        TransportCapability::DnsResolution,
        TransportCapability::DpiResistant,
    ];
    for a in &all {
        for b in &all {
            assert_eq!(a.to_string() == b.to_string(), a == b);
        }
    }
}

#[test]
fn transport_capability_clone_eq_hash() {
    let a = TransportCapability::OnionRouting;
    let b = a;
    assert_eq!(a, b);

    let mut set = HashSet::new();
    set.insert(TransportCapability::OnionRouting);
    set.insert(TransportCapability::IpAnonymity);
    set.insert(TransportCapability::OnionRouting);
    assert_eq!(set.len(), 2);
}

#[test]
fn isolation_token_new_and_value() {
    let token = IsolationToken::new(42);
    assert_eq!(token.value(), 42);
}

#[test]
fn isolation_token_eq_hash() {
    let a = IsolationToken::new(1);
    let b = IsolationToken::new(1);
    let c = IsolationToken::new(2);
    assert_eq!(a, b);
    assert_ne!(a, c);

    let mut set = HashSet::new();
    set.insert(a);
    set.insert(b);
    set.insert(c);
    assert_eq!(set.len(), 2);
}

#[test]
fn isolation_token_clone_copy() {
    let a = IsolationToken::new(99);
    let b = a;
    assert_eq!(a, b);
}

#[test]
fn isolation_token_extremes() {
    assert_eq!(IsolationToken::new(0).value(), 0);
    assert_eq!(IsolationToken::new(u64::MAX).value(), u64::MAX);
    assert_ne!(IsolationToken::new(0), IsolationToken::new(u64::MAX));
}

#[test]
fn socks5_transport_name() {
    let t = Socks5Transport::new("127.0.0.1:9050");
    assert_eq!(t.name(), "socks5");
}

#[test]
fn tor_default_port() {
    let t = Socks5Transport::tor_default();
    assert_eq!(t.proxy_addr(), "127.0.0.1:9050");
}

#[test]
fn socks5_resolve_not_supported() {
    let t = Socks5Transport::new("127.0.0.1:9050");
    assert!(matches!(t.resolve_refusal(), Error::Transport(_)));
}

#[test]
fn invalid_onion_rejected() {
    let t = Socks5Transport::new("127.0.0.1:9050");
    let result = t.check_onion("not-an-onion.com");
    assert!(matches!(result, Err(Error::InvalidAddress(_))));
    assert_eq!(
        result,
        Err(Error::InvalidAddress(
            "expected .onion address, got: not-an-onion.com".into()
        ))
    );
    assert_eq!(t.check_onion("examplesite.onion"), Ok(()));
}

#[test]
fn capabilities_has_ip_anonymity() {
    let t = Socks5Transport::new("127.0.0.1:9050");
    let caps = t.capabilities();
    assert_eq!(caps.len(), 1);
    assert!(caps.contains(&TransportCapability::IpAnonymity));
}

#[test]
fn socks5_error_texts() {
    let t = Socks5Transport::new("127.0.0.1:9050");
    assert_eq!(
        t.connect_failure("example.com", 443, "general failure"),
        Error::Socks5("connect to example.com:443 via 127.0.0.1:9050: general failure".into())
    );
    assert_eq!(
        t.onion_connect_failure("abc.onion", 80, "host unreachable"),
        Error::Socks5("onion connect to abc.onion:80 via 127.0.0.1:9050: host unreachable".into())
    );
}

#[test]
fn socks5_clone_eq() {
    let t = Socks5Transport::new("10.0.0.1:1080");
    assert_eq!(t.clone(), t);
    assert_ne!(t, Socks5Transport::tor_default());
}

#[test]
fn onion_check_on_edges() {
    assert_eq!(check_onion_address(".onion"), Ok(()));
    assert!(check_onion_address("onion").is_err());
    assert!(check_onion_address("").is_err());
    assert!(check_onion_address("x.onion.").is_err());
}

#[test]
fn tor_transport_name() {
    assert_eq!(tor::name(), "tor (arti)");
}

#[test]
fn tor_capabilities_full_set() {
    let caps = tor::capabilities();
    assert_eq!(
        caps,
        vec![
            TransportCapability::OnionRouting,
            TransportCapability::IpAnonymity,
            TransportCapability::StreamIsolation,
            TransportCapability::DnsResolution,
            TransportCapability::DpiResistant,
        ]
    );
}

#[test]
fn tor_error_texts() {
    assert_eq!(
        tor::connect_failure("example.com", 80, "timed out"),
        Error::Connection("Tor connect to example.com:80: timed out".into())
    );
    assert_eq!(
        tor::onion_connect_failure("abc.onion", 443, "no circuit"),
        Error::Connection("Tor onion connect to abc.onion:443: no circuit".into())
    );
    assert_eq!(
        tor::resolve_failure("example.com", "refused"),
        Error::Connection("Tor resolve example.com: refused".into())
    );
    assert_eq!(
        tor::bootstrap_failure("no consensus"),
        Error::Bootstrap("Tor bootstrap failed: no consensus".into())
    );
}

#[test]
fn nym_transport_name() {
    assert_eq!(nym::name(), "nym");
}

#[test]
fn nym_capabilities_has_anonymity_and_dpi() {
    let caps = nym::capabilities();
    assert_eq!(caps.len(), 2);
    assert!(caps.contains(&TransportCapability::IpAnonymity));
    assert!(caps.contains(&TransportCapability::DpiResistant));
}

#[test]
fn nym_onion_not_supported() {
    assert!(matches!(nym::connect_onion_refusal(), Error::Transport(_)));
}

#[test]
fn nym_resolve_not_supported() {
    assert!(matches!(nym::resolve_refusal(), Error::Transport(_)));
}

#[test]
fn nym_connect_error_text() {
    assert_eq!(
        nym::connect_failure("example.com", 80, "127.0.0.1:1080", "refused"),
        Error::Socks5("nym connect to example.com:80 via 127.0.0.1:1080: refused".into())
    );
}

#[test]
fn shadowsocks_transport_name() {
    assert_eq!(shadowsocks::name(), "shadowsocks");
}

#[test]
fn shadowsocks_onion_not_supported() {
    assert!(matches!(shadowsocks::connect_onion_refusal(), Error::Transport(_)));
}

#[test]
fn shadowsocks_resolve_not_supported() {
    assert!(matches!(shadowsocks::resolve_refusal(), Error::Transport(_)));
}

#[test]
fn shadowsocks_connect_error_text() {
    assert_eq!(
        shadowsocks::connect_failure("example.com", 80, "127.0.0.1:1080", "refused"),
        Error::Socks5("shadowsocks connect to example.com:80 via 127.0.0.1:1080: refused".into())
    );
    assert!(shadowsocks::capabilities().is_empty());
}

#[test]
fn i2p_transport_name() {
    assert_eq!(i2p::name(), "i2p");
}

#[test]
fn i2p_capabilities_has_anonymity_and_dpi() {
    let caps = i2p::capabilities();
    assert_eq!(caps.len(), 2);
    assert!(caps.contains(&TransportCapability::IpAnonymity));
    assert!(caps.contains(&TransportCapability::DpiResistant));
}

#[test]
fn clearnet_not_supported() {
    assert!(matches!(i2p::connect_refusal(), Error::Transport(_)));
}
