use vstd::prelude::*;

verus! {

/// The ways a certificate check can fail.
#[derive(Debug)]
pub enum SslError {
    /// The host and port could not be turned into a connectable address.
    ResolveAddress { domain: String, port: u16 },
    /// The transport connection or the TLS negotiation failed.
    TlsHandshake { domain: String, port: u16, reason: String },
    /// The handshake completed but the peer presented no certificate.
    MissingCertificate { domain: String, port: u16 },
    /// A certificate could not be decoded, holds an unrepresentable time, or
    /// has a validity window that ends before it starts.
    ParseCert { reason: String },
    /// The leaf expires within the configured warning window.
    ExpiringSoon { days_until_expiry: i64, warn_days: i64 },
}

/// The machine-readable code of each error kind.
pub open spec fn ssl_error_code(e: SslError) -> Seq<char> {
    match e {
        SslError::ResolveAddress { .. } => "RESOLVE_FAILED"@,
        SslError::TlsHandshake { .. } => "TLS_HANDSHAKE_FAILED"@,
        SslError::MissingCertificate { .. } => "MISSING_CERTIFICATE"@,
        SslError::ParseCert { .. } => "PARSE_CERT_FAILED"@,
        SslError::ExpiringSoon { .. } => "EXPIRING_SOON"@,
    }
}

impl SslError {
    /// The stable code that names this error's kind.
    pub fn code(&self) -> (r: &'static str)
        ensures
            r@ == ssl_error_code(*self),
    {
        match self {
            SslError::ResolveAddress { .. } => "RESOLVE_FAILED",
            SslError::TlsHandshake { .. } => "TLS_HANDSHAKE_FAILED",
            SslError::MissingCertificate { .. } => "MISSING_CERTIFICATE",
            SslError::ParseCert { .. } => "PARSE_CERT_FAILED",
            SslError::ExpiringSoon { .. } => "EXPIRING_SOON",
        }
    }
}

} // verus!
