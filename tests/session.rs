use dee::error::SslError;
use dee::session::{next_step, FetchEvent, FetchStep};

fn domain() -> String {
    "example.com".to_string()
}

fn finished_error(step: FetchStep) -> SslError {
    match step {
        FetchStep::Finished(Err(e)) => e,
        _ => panic!("expected a failure"),
    }
}

#[test]
fn check_connection_refused_json_error_on_stdout() {
    let target = "127.0.0.1".to_string();
    assert!(matches!(next_step(&target, 1, FetchEvent::Resolved), FetchStep::Connect));
    let refused = FetchEvent::ConnectFailed { reason: "Connection refused (os error 111)".to_string() };
    let e = finished_error(next_step(&target, 1, refused));
    assert!(!e.code().is_empty());
    assert_eq!(e.code(), "TLS_HANDSHAKE_FAILED");
    match e {
        SslError::TlsHandshake { domain, port, reason } => {
            assert_eq!(domain, "127.0.0.1");
            assert_eq!(port, 1);
            assert_eq!(reason, "Connection refused (os error 111)");
        }
        _ => panic!("expected a handshake failure"),
    }
}

#[test]
fn check_dns_failure_json_error() {
    let target = "this.domain.definitely.does.not.exist.invalid".to_string();
    let e = finished_error(next_step(&target, 443, FetchEvent::Unresolved));
    assert_eq!(e.code(), "RESOLVE_FAILED");
    match e {
        SslError::ResolveAddress { domain, port } => {
            assert_eq!(domain, target);
            assert_eq!(port, 443);
        }
        _ => panic!("expected a resolution failure"),
    }
}

#[test]
fn connected_host_goes_on_to_handshake() {
    assert!(matches!(next_step(&domain(), 443, FetchEvent::Connected), FetchStep::Handshake));
    let ip = "192.0.2.7".to_string();
    assert!(matches!(next_step(&ip, 443, FetchEvent::Connected), FetchStep::Handshake));
}

#[test]
fn invalid_server_name_is_a_handshake_failure() {
    let bad = "not a host!".to_string();
    match finished_error(next_step(&bad, 443, FetchEvent::Connected)) {
        SslError::TlsHandshake { reason, .. } => assert_eq!(reason, "invalid dns name"),
        _ => panic!("expected a handshake failure"),
    }
}

#[test]
fn handshake_failure_keeps_its_reason() {
    let ev = FetchEvent::HandshakeFailed { reason: "received fatal alert".to_string() };
    match finished_error(next_step(&domain(), 443, ev)) {
        SslError::TlsHandshake { reason, .. } => assert_eq!(reason, "received fatal alert"),
        _ => panic!("expected a handshake failure"),
    }
}

#[test]
fn no_peer_certificates_is_missing_certificate() {
    let none = finished_error(next_step(&domain(), 443, FetchEvent::HandshakeDone { certs: None }));
    assert_eq!(none.code(), "MISSING_CERTIFICATE");
    let empty = FetchEvent::HandshakeDone { certs: Some(vec![]) };
    assert!(matches!(
        finished_error(next_step(&domain(), 443, empty)),
        SslError::MissingCertificate { port: 443, .. }
    ));
}

#[test]
fn presented_certificates_become_the_chain() {
    let certs = vec![vec![1u8, 2, 3], vec![4u8]];
    match next_step(&domain(), 443, FetchEvent::HandshakeDone { certs: Some(certs.clone()) }) {
        FetchStep::Finished(Ok(chain)) => {
            assert_eq!(chain.len(), 2);
            assert_eq!(chain.leaf(), &certs[0]);
            assert_eq!(chain.get(1), &certs[1]);
        }
        _ => panic!("expected a chain"),
    }
}
