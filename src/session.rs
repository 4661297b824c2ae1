use vstd::prelude::*;

use rustls::pki_types::ServerName;

use crate::error::SslError;
use crate::report::CertificateChain;

verus! {

/// Whether rustls accepts `name` as a server name: a DNS name or an IP
/// address literal.
pub uninterp spec fn server_name_accepted(name: Seq<char>) -> bool;

/// Relies on rustls' `ServerName::try_from(&str)`, which accepts a DNS name
/// or an IP address literal and otherwise fails with `InvalidDnsNameError`,
/// whose text is "invalid dns name".
#[verifier::external_body]
fn check_server_name(domain: &str) -> (r: Result<(), String>)
    ensures
        r is Ok <==> server_name_accepted(domain@),
        r matches Err(e) ==> e@ == "invalid dns name"@,
{
    ServerName::try_from(domain).map(|_| ()).map_err(|e| e.to_string())
}

/// What happened at one step of fetching a server's certificates.
#[derive(Debug)]
pub enum FetchEvent {
    /// Name resolution failed or produced no address.
    Unresolved,
    /// Name resolution produced an address (the first one is used).
    Resolved,
    /// Opening the connection, or setting its read and write deadlines,
    /// failed.
    ConnectFailed { reason: String },
    /// The connection is open with both deadlines set.
    Connected,
    /// The TLS handshake could not complete.
    HandshakeFailed { reason: String },
    /// The handshake completed; the certificates the peer presented, in the
    /// order sent, if it presented any.
    HandshakeDone { certs: Option<Vec<Vec<u8>>> },
}

/// What to do next.
#[derive(Debug)]
pub enum FetchStep {
    /// Open the transport connection to the resolved address.
    Connect,
    /// Run the TLS handshake over the open connection.
    Handshake,
    /// Stop with this outcome.
    Finished(Result<CertificateChain, SslError>),
}

/// `r` is `ResolveAddress` for the target.
pub open spec fn is_resolve_error(r: SslError, domain: Seq<char>, port: u16) -> bool {
    r matches SslError::ResolveAddress { domain: d, port: p } && d@ == domain && p == port
}

/// `r` is `TlsHandshake` for the target, with the given reason.
pub open spec fn is_handshake_error(r: SslError, domain: Seq<char>, port: u16, reason: Seq<char>) -> bool {
    r matches SslError::TlsHandshake { domain: d, port: p, reason: x } && d@ == domain && p == port
        && x@ == reason
}

/// `r` is `MissingCertificate` for the target.
pub open spec fn is_missing_error(r: SslError, domain: Seq<char>, port: u16) -> bool {
    r matches SslError::MissingCertificate { domain: d, port: p } && d@ == domain && p == port
}

/// The step that follows `event` when fetching from `domain`:`port`.
pub open spec fn next_step_of(domain: Seq<char>, port: u16, event: FetchEvent, r: FetchStep) -> bool {
    match event {
        FetchEvent::Unresolved => r matches FetchStep::Finished(Err(e)) && is_resolve_error(e, domain, port),
        FetchEvent::Resolved => r is Connect,
        FetchEvent::ConnectFailed { reason } => r matches FetchStep::Finished(Err(e))
            && is_handshake_error(e, domain, port, reason@),
        FetchEvent::Connected => if server_name_accepted(domain) {
            r is Handshake
        } else {
            r matches FetchStep::Finished(Err(e)) && is_handshake_error(e, domain, port, "invalid dns name"@)
        },
        FetchEvent::HandshakeFailed { reason } => r matches FetchStep::Finished(Err(e))
            && is_handshake_error(e, domain, port, reason@),
        FetchEvent::HandshakeDone { certs } => match certs {
            Some(v) if v@.len() > 0 => r matches FetchStep::Finished(Ok(c)) && c@ == v@.map_values(
                |b: Vec<u8>| b@,
            ),
            _ => r matches FetchStep::Finished(Err(e)) && is_missing_error(e, domain, port),
        },
    }
}

/// Decides the next step of fetching a certificate chain from
/// `domain`:`port`. Resolution failures are `ResolveAddress`; transport and
/// handshake failures, and a name that cannot serve as a server name, are
/// `TlsHandshake`; a peer without certificates is `MissingCertificate`.
pub fn next_step(domain: &String, port: u16, event: FetchEvent) -> (r: FetchStep)
    ensures
        next_step_of(domain@, port, event, r),
{
    match event {
        FetchEvent::Unresolved => FetchStep::Finished(
            Err(SslError::ResolveAddress { domain: domain.clone(), port }),
        ),
        FetchEvent::Resolved => FetchStep::Connect,
        FetchEvent::ConnectFailed { reason } => FetchStep::Finished(
            Err(SslError::TlsHandshake { domain: domain.clone(), port, reason }),
        ),
        FetchEvent::Connected => match check_server_name(domain.as_str()) {
            Ok(()) => FetchStep::Handshake,
            Err(reason) => FetchStep::Finished(
                Err(SslError::TlsHandshake { domain: domain.clone(), port, reason }),
            ),
        },
        FetchEvent::HandshakeFailed { reason } => FetchStep::Finished(
            Err(SslError::TlsHandshake { domain: domain.clone(), port, reason }),
        ),
        FetchEvent::HandshakeDone { certs } => {
            let found = match certs {
                Some(v) => CertificateChain::new(v),
                None => None,
            };
            match found {
                Some(chain) => FetchStep::Finished(Ok(chain)),
                None => FetchStep::Finished(
                    Err(SslError::MissingCertificate { domain: domain.clone(), port }),
                ),
            }
        },
    }
}

} // verus!
