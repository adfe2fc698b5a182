use http_exchange::outcome::Outcome;
use http_exchange::transport::{Connected, Connecting, ServerKind, Transport, TransportError};
use std::io;

fn fault(kind: io::ErrorKind) -> Outcome {
    Outcome::Failed(io::Error::new(kind, "fault"))
}

fn begun(tls: bool, host: &str, port: u16) -> Connecting {
    match Transport::connect(tls, host, port) {
        Ok(connecting) => connecting,
        Err(error) => panic!("unexpected {:?}", error),
    }
}

#[test]
fn dns_name_begins_with_the_raw_connection() {
    match begun(false, "example.com", 80) {
        Connecting::Raw { server, host, port, tls } => {
            assert_eq!(server, ServerKind::DnsName);
            assert_eq!(host, "example.com");
            assert_eq!(port, 80);
            assert!(!tls);
        }
        other => panic!("unexpected {:?}", other),
    }
}

#[test]
fn ip_addresses_are_server_identities() {
    assert!(matches!(begun(true, "127.0.0.1", 443),
        Connecting::Raw { server: ServerKind::IpAddress, port: 443, tls: true, .. }));
    assert!(matches!(begun(true, "::1", 8443),
        Connecting::Raw { server: ServerKind::IpAddress, port: 8443, tls: true, .. }));
    assert!(matches!(begun(false, "localhost", 1),
        Connecting::Raw { server: ServerKind::DnsName, port: 1, tls: false, .. }));
}

#[test]
fn host_that_is_no_server_identity_fails_the_connect() {
    for host in ["", "not a host", "exa mple.com", "-bad.example", "a..b"] {
        assert!(matches!(
            Transport::connect(true, host, 443),
            Err(TransportError::InvalidDnsName(_))
        ));
        assert!(matches!(
            Transport::connect(false, host, 80),
            Err(TransportError::InvalidDnsName(_))
        ));
    }
}

#[test]
fn connect_begins_by_how_the_host_was_read() {
    assert!(matches!(
        Connecting::begin(Ok(ServerKind::IpAddress), true, "10.0.0.1", 8443),
        Ok(Connecting::Raw { server: ServerKind::IpAddress, ref host, port: 8443, tls: true })
            if host == "10.0.0.1"
    ));
    assert!(matches!(
        Connecting::begin(Ok(ServerKind::DnsName), false, "example.com", 80),
        Ok(Connecting::Raw { server: ServerKind::DnsName, ref host, port: 80, tls: false })
            if host == "example.com"
    ));
    let refused = rustls_pki_types::ServerName::try_from("not a host").unwrap_err();
    assert!(matches!(
        Connecting::begin(Err(refused), true, "not a host", 443),
        Err(TransportError::InvalidDnsName(_))
    ));
}

#[test]
fn plain_connect_is_done_with_the_raw_connection() {
    let connecting = begun(false, "example.com", 80);
    let connecting = match connecting.poll(Outcome::Pending) {
        Connected::Pending(same) => same,
        other => panic!("unexpected {:?}", other),
    };
    assert!(matches!(connecting, Connecting::Raw { .. }));
    assert!(matches!(connecting.poll(Outcome::Ready(0)), Connected::Ready(Transport::Tcp)));
}

#[test]
fn encrypted_connect_shakes_hands_after_the_raw_connection() {
    let connecting = begun(true, "example.com", 443);
    let connecting = match connecting.poll(Outcome::Ready(0)) {
        Connected::Continue(next) => next,
        other => panic!("unexpected {:?}", other),
    };
    match &connecting {
        Connecting::Handshake { server, host } => {
            assert_eq!(*server, ServerKind::DnsName);
            assert_eq!(host, "example.com");
        }
        other => panic!("unexpected {:?}", other),
    }
    let connecting = match connecting.poll(Outcome::Pending) {
        Connected::Pending(same) => same,
        other => panic!("unexpected {:?}", other),
    };
    assert!(matches!(connecting, Connecting::Handshake { .. }));
    assert!(matches!(connecting.poll(Outcome::Ready(0)), Connected::Ready(Transport::Tls)));
}

#[test]
fn raw_connection_fault_is_a_tcp_connect_error() {
    for tls in [false, true] {
        match begun(tls, "example.com", 80).poll(fault(io::ErrorKind::ConnectionRefused)) {
            Connected::Failed(TransportError::TcpConnect(cause)) => {
                assert_eq!(cause.kind(), io::ErrorKind::ConnectionRefused)
            }
            other => panic!("unexpected {:?}", other),
        }
    }
}

#[test]
fn handshake_fault_is_a_tls_connect_error() {
    let connecting = match begun(true, "example.com", 443).poll(Outcome::Ready(0)) {
        Connected::Continue(next) => next,
        other => panic!("unexpected {:?}", other),
    };
    match connecting.poll(fault(io::ErrorKind::InvalidData)) {
        Connected::Failed(TransportError::TlsConnect(cause)) => {
            assert_eq!(cause.kind(), io::ErrorKind::InvalidData)
        }
        other => panic!("unexpected {:?}", other),
    }
}
