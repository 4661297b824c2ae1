use vstd::prelude::*;

use chrono::{DateTime, SecondsFormat, Utc};
use x509_parser::certificate::X509Certificate;
use x509_parser::extensions::{GeneralName, ParsedExtension, X509Extension};
use x509_parser::prelude::FromDer;

use crate::error::SslError;
use crate::string_views;

verus! {

/// One entry of a Subject Alternative Name extension.
#[derive(Debug)]
pub enum AltName {
    /// A DNS name.
    Dns(String),
    /// Any other kind of name (IP address, e-mail, URI, ...).
    Other,
}

/// One certificate extension, as far as decoding cares.
#[derive(Debug)]
pub enum Extension {
    /// A Subject Alternative Name extension with its entries in order.
    AltNames(Vec<AltName>),
    /// Any other extension.
    Other,
}

/// The fields of an X.509 certificate that a check reads, as decoded.
#[derive(Debug)]
pub struct X509Fields {
    pub issuer: String,
    pub subject: String,
    /// Start of the validity window, in seconds since the Unix epoch.
    pub not_before: i64,
    /// End of the validity window, in seconds since the Unix epoch.
    pub not_after: i64,
    pub extensions: Vec<Extension>,
}

/// Mathematical model of [`X509Fields`]: each extension is `Some` list of
/// alternative names (`Some` DNS name, `None` for other kinds) when it is
/// a Subject Alternative Name extension, `None` otherwise.
pub struct X509Model {
    pub issuer: Seq<char>,
    pub subject: Seq<char>,
    pub not_before: int,
    pub not_after: int,
    pub extensions: Seq<Option<Seq<Option<Seq<char>>>>>,
}

/// Model of one alternative name: `Some` DNS name, `None` otherwise.
pub open spec fn alt_name_model(a: AltName) -> Option<Seq<char>> {
    match a {
        AltName::Dns(s) => Some(s@),
        AltName::Other => None,
    }
}

/// Model of one extension: its alternative names when it lists them.
pub open spec fn extension_model(e: Extension) -> Option<Seq<Option<Seq<char>>>> {
    match e {
        Extension::AltNames(v) => Some(v@.map_values(|a: AltName| alt_name_model(a))),
        Extension::Other => None,
    }
}

impl X509Fields {
    /// The mathematical model of the decoded fields.
    pub open spec fn model(&self) -> X509Model {
        X509Model {
            issuer: self.issuer@,
            subject: self.subject@,
            not_before: self.not_before as int,
            not_after: self.not_after as int,
            extensions: self.extensions@.map_values(|e: Extension| extension_model(e)),
        }
    }
}

/// Model of a decoding result: the fields, or the error text.
pub open spec fn decode_result_model(r: Result<X509Fields, String>) -> Result<X509Model, Seq<char>> {
    match r {
        Ok(f) => Ok(f.model()),
        Err(e) => Err(e@),
    }
}

/// What x509-parser makes of DER bytes: the decoded fields, or the text of
/// its parse error.
pub uninterp spec fn x509_decode(der: Seq<u8>) -> Result<X509Model, Seq<char>>;

/// Relies on x509-parser's `X509Certificate::from_der` to decode a DER
/// certificate, and on the accessors of the decoded value: `issuer` and
/// `subject` (rendered with `Display`), `validity` (each end as
/// `ASN1Time::timestamp`), and `extensions` with `parsed_extension`, whose
/// Subject Alternative Name entries are kept in order, DNS names with their
/// text. A parse failure gives the error's `Display` text. The result
/// depends on the bytes alone.
#[verifier::external_body]
fn decode_x509(der: &[u8]) -> (r: Result<X509Fields, String>)
    ensures
        decode_result_model(r) == x509_decode(der@),
{
    let (_, c) = X509Certificate::from_der(der).map_err(|e| e.to_string())?;
    let name = |n: &GeneralName| match n {
        GeneralName::DNSName(s) => AltName::Dns(s.to_string()),
        _ => AltName::Other,
    };
    let ext = |e: &X509Extension| match e.parsed_extension() {
        ParsedExtension::SubjectAlternativeName(s) => Extension::AltNames(s.general_names.iter().map(name).collect()),
        _ => Extension::Other,
    };
    let v = c.validity();
    Ok(X509Fields {
        issuer: c.issuer().to_string(), subject: c.subject().to_string(),
        not_before: v.not_before.timestamp(), not_after: v.not_after.timestamp(),
        extensions: c.extensions().iter().map(ext).collect(),
    })
}

/// Earliest timestamp that chrono can hold as a `DateTime<Utc>`
/// (-262143-01-01T00:00:00Z).
pub const MIN_UTC_TIMESTAMP: i64 = -8334601315200;

/// Latest timestamp that chrono can hold as a `DateTime<Utc>`
/// (+262142-12-31T23:59:59Z).
pub const MAX_UTC_TIMESTAMP: i64 = 8210266876799;

/// Whether chrono can render the timestamp `ts` as a UTC date.
pub open spec fn utc_representable(ts: int) -> bool {
    MIN_UTC_TIMESTAMP <= ts && ts <= MAX_UTC_TIMESTAMP
}

/// The RFC 3339 rendering of a Unix timestamp in UTC, to the second, with
/// a `Z` suffix (for example `2018-01-26T18:30:09Z`).
pub uninterp spec fn rfc3339_utc(ts: int) -> Seq<char>;

/// Relies on chrono's `DateTime::<Utc>::from_timestamp`, which fails
/// outside chrono's date range, and `to_rfc3339_opts(SecondsFormat::Secs, true)`.
#[verifier::external_body]
fn render_utc(ts: i64) -> (r: Option<String>)
    ensures
        r is Some <==> utc_representable(ts as int),
        r matches Some(s) ==> s@ == rfc3339_utc(ts as int),
{
    DateTime::<Utc>::from_timestamp(ts, 0).map(|dt| dt.to_rfc3339_opts(SecondsFormat::Secs, true))
}

/// Reason given when a validity timestamp has no calendar rendering.
pub open spec fn invalid_timestamp_reason() -> Seq<char> {
    "invalid certificate timestamp"@
}

/// Reason given when a validity window ends before it starts.
pub open spec fn inverted_window_reason() -> Seq<char> {
    "certificate validity window ends before it starts"@
}

/// A decoded certificate, as a check reports it.
#[derive(Debug)]
pub struct ParsedCertificate {
    pub subject: String,
    pub issuer: String,
    /// Start of the validity window, in seconds since the Unix epoch.
    pub not_before: i64,
    /// End of the validity window, in seconds since the Unix epoch.
    pub not_after: i64,
    /// `not_before` rendered as RFC 3339 in UTC.
    pub not_before_text: String,
    /// `not_after` rendered as RFC 3339 in UTC.
    pub not_after_text: String,
    /// DNS-type Subject Alternative Names, in certificate order.
    pub sans: Vec<String>,
}

/// Mathematical model of [`ParsedCertificate`].
pub struct CertificateModel {
    pub subject: Seq<char>,
    pub issuer: Seq<char>,
    pub not_before: int,
    pub not_after: int,
    pub not_before_text: Seq<char>,
    pub not_after_text: Seq<char>,
    pub sans: Seq<Seq<char>>,
}

impl ParsedCertificate {
    /// The mathematical model of the certificate.
    pub open spec fn model(&self) -> CertificateModel {
        CertificateModel {
            subject: self.subject@,
            issuer: self.issuer@,
            not_before: self.not_before as int,
            not_after: self.not_after as int,
            not_before_text: self.not_before_text@,
            not_after_text: self.not_after_text@,
            sans: string_views(self.sans@),
        }
    }
}

/// The DNS names among alternative names, in order; other kinds are dropped.
pub open spec fn dns_names(names: Seq<Option<Seq<char>>>) -> Seq<Seq<char>>
    decreases names.len(),
{
    if names.len() == 0 {
        Seq::empty()
    } else {
        let rest = dns_names(names.drop_last());
        match names.last() {
            Some(d) => rest.push(d),
            None => rest,
        }
    }
}

/// The entries of the first Subject Alternative Name extension at or after
/// position `i`; empty when there is none.
pub open spec fn alt_names_from(exts: Seq<Option<Seq<Option<Seq<char>>>>>, i: int) -> Seq<
    Option<Seq<char>>,
>
    decreases exts.len() - i,
{
    if i < 0 || i >= exts.len() {
        Seq::empty()
    } else {
        match exts[i] {
            Some(names) => names,
            None => alt_names_from(exts, i + 1),
        }
    }
}

/// The decoded certificate that a well-formed set of fields describes.
pub open spec fn certificate_model(m: X509Model) -> CertificateModel {
    CertificateModel {
        subject: m.subject,
        issuer: m.issuer,
        not_before: m.not_before,
        not_after: m.not_after,
        not_before_text: rfc3339_utc(m.not_before),
        not_after_text: rfc3339_utc(m.not_after),
        sans: dns_names(alt_names_from(m.extensions, 0)),
    }
}

/// What decoding DER bytes yields: the certificate, or the reason it was
/// refused.
pub open spec fn parse_outcome(der: Seq<u8>) -> Result<CertificateModel, Seq<char>> {
    match x509_decode(der) {
        Err(reason) => Err(reason),
        Ok(m) => if !utc_representable(m.not_before) || !utc_representable(m.not_after) {
            Err(invalid_timestamp_reason())
        } else if m.not_before > m.not_after {
            Err(inverted_window_reason())
        } else {
            Ok(certificate_model(m))
        },
    }
}

/// Keeps the DNS names of a Subject Alternative Name list, in order.
pub fn dns_sans(names: &Vec<AltName>) -> (r: Vec<String>)
    ensures
        string_views(r@) == dns_names(names@.map_values(|a: AltName| alt_name_model(a))),
{
    let ghost model = names@.map_values(|a: AltName| alt_name_model(a));
    let mut out: Vec<String> = Vec::new();
    let mut i: usize = 0;
    while i < names.len()
        invariant
            i <= names.len(),
            model == names@.map_values(|a: AltName| alt_name_model(a)),
            string_views(out@) == dns_names(model.subrange(0, i as int)),
        decreases names.len() - i,
    {
        proof {
            assert(model.subrange(0, i as int + 1).drop_last() =~= model.subrange(0, i as int));
        }
        match &names[i] {
            AltName::Dns(d) => {
                out.push(d.clone());
                proof {
                    assert(string_views(out@) =~= dns_names(model.subrange(0, i as int)).push(d@));
                }
            },
            AltName::Other => {},
        }
        i = i + 1;
    }
    proof {
        assert(model.subrange(0, names@.len() as int) =~= model);
    }
    out
}

/// The DNS names of the first Subject Alternative Name extension; empty
/// when the certificate has none.
pub fn extension_sans(exts: &Vec<Extension>) -> (r: Vec<String>)
    ensures
        string_views(r@) == dns_names(
            alt_names_from(exts@.map_values(|e: Extension| extension_model(e)), 0),
        ),
{
    let ghost model = exts@.map_values(|e: Extension| extension_model(e));
    let mut i: usize = 0;
    while i < exts.len()
        invariant
            i <= exts.len(),
            model == exts@.map_values(|e: Extension| extension_model(e)),
            alt_names_from(model, 0) == alt_names_from(model, i as int),
        decreases exts.len() - i,
    {
        match &exts[i] {
            Extension::AltNames(names) => {
                return dns_sans(names);
            },
            Extension::Other => {},
        }
        i = i + 1;
    }
    Vec::new()
}

/// Decodes one DER certificate: issuer and subject, the validity window
/// (as timestamps and as RFC 3339 text) and the DNS-type alternative names.
/// Fails with `ParseCert` on bytes that are not a certificate, on a time
/// that has no calendar rendering, and on a window that ends before it
/// starts.
pub fn parse_cert(der: &[u8]) -> (r: Result<ParsedCertificate, SslError>)
    ensures
        match parse_outcome(der@) {
            Ok(c) => r matches Ok(p) && p.model() == c,
            Err(reason) => r matches Err(SslError::ParseCert { reason: x }) && x@ == reason,
        },
        r matches Ok(p) ==> p.not_before <= p.not_after,
{
    let fields = match decode_x509(der) {
        Ok(f) => f,
        Err(reason) => {
            return Err(SslError::ParseCert { reason });
        },
    };
    let not_before_text = match render_utc(fields.not_before) {
        Some(t) => t,
        None => {
            return Err(SslError::ParseCert { reason: String::from_str("invalid certificate timestamp") });
        },
    };
    let not_after_text = match render_utc(fields.not_after) {
        Some(t) => t,
        None => {
            return Err(SslError::ParseCert { reason: String::from_str("invalid certificate timestamp") });
        },
    };
    if fields.not_before > fields.not_after {
        return Err(
            SslError::ParseCert {
                reason: String::from_str("certificate validity window ends before it starts"),
            },
        );
    }
    let sans = extension_sans(&fields.extensions);
    let p = ParsedCertificate {
        subject: fields.subject,
        issuer: fields.issuer,
        not_before: fields.not_before,
        not_after: fields.not_after,
        not_before_text,
        not_after_text,
        sans,
    };
    proof {
        assert(p.model() =~= certificate_model(fields.model()));
    }
    Ok(p)
}

/// Scanning extensions from position `i` finds no alternative names when
/// none of them is a Subject Alternative Name extension.
proof fn lemma_alt_names_absent(exts: Seq<Option<Seq<Option<Seq<char>>>>>, i: int)
    requires
        forall|k: int| 0 <= k < exts.len() ==> #[trigger] exts[k] is None,
    ensures
        alt_names_from(exts, i) == Seq::<Option<Seq<char>>>::empty(),
    decreases exts.len() - i,
{
    if 0 <= i < exts.len() {
        lemma_alt_names_absent(exts, i + 1);
    }
}

/// A certificate without a Subject Alternative Name extension decodes with
/// an empty list of names: the extension's absence is no error.
pub proof fn lemma_missing_alt_names_decode_empty(der: Seq<u8>)
    requires
        x509_decode(der) matches Ok(m) && forall|k: int|
            0 <= k < m.extensions.len() ==> #[trigger] m.extensions[k] is None,
    ensures
        x509_decode(der) matches Ok(m) && (parse_outcome(der) is Ok <==> (utc_representable(
            m.not_before,
        ) && utc_representable(m.not_after) && m.not_before <= m.not_after)),
        parse_outcome(der) matches Ok(c) ==> c.sans.len() == 0,
{
    let m = x509_decode(der)->Ok_0;
    lemma_alt_names_absent(m.extensions, 0);
    assert(dns_names(Seq::<Option<Seq<char>>>::empty()) == Seq::<Seq<char>>::empty());
}

} // verus!
