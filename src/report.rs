use vstd::prelude::*;

use crate::decode::{parse_cert, parse_outcome, CertificateModel};
use crate::error::SslError;
use crate::expiry::{
    check_warning, days_between, days_until_expiry, lemma_warning_threshold_boundary, valid_at, warning_due,
    within_window,
};
use crate::string_views;

verus! {

/// The certificates a server presented, in presentation order, leaf first.
/// Never empty.
#[derive(Debug)]
pub struct CertificateChain {
    certs: Vec<Vec<u8>>,
}

impl View for CertificateChain {
    type V = Seq<Seq<u8>>;

    closed spec fn view(&self) -> Seq<Seq<u8>> {
        self.certs@.map_values(|c: Vec<u8>| c@)
    }
}

impl CertificateChain {
    #[verifier::type_invariant]
    spec fn non_empty(&self) -> bool {
        self.certs@.len() > 0
    }

    /// A chain of the given DER certificates; `None` when there are none.
    pub fn new(certs: Vec<Vec<u8>>) -> (r: Option<CertificateChain>)
        ensures
            r is Some <==> certs@.len() > 0,
            r matches Some(c) ==> c@ == certs@.map_values(|v: Vec<u8>| v@),
    {
        if certs.len() == 0 {
            None
        } else {
            Some(CertificateChain { certs })
        }
    }

    /// The number of certificates.
    pub fn len(&self) -> (r: usize)
        ensures
            r == self@.len(),
            r > 0,
    {
        proof {
            use_type_invariant(self);
        }
        self.certs.len()
    }

    /// The DER bytes of the certificate at `i`.
    pub fn get(&self, i: usize) -> (r: &Vec<u8>)
        requires
            i < self@.len(),
        ensures
            r@ == self@[i as int],
    {
        &self.certs[i]
    }

    /// The DER bytes of the leaf certificate.
    pub fn leaf(&self) -> (r: &Vec<u8>)
        ensures
            r@ == self@[0],
    {
        proof {
            use_type_invariant(self);
        }
        &self.certs[0]
    }
}

/// The summary of a leaf certificate.
#[derive(Debug)]
pub struct CheckResult {
    pub domain: String,
    pub port: u16,
    /// Whether the check time lies within the leaf's validity window.
    pub valid_now: bool,
    /// The leaf's `not_after`, as RFC 3339 text in UTC.
    pub expires: String,
    pub days_until_expiry: i64,
    pub issuer: String,
    pub subject: String,
    pub sans: Vec<String>,
    /// How many certificates the server presented.
    pub chain_depth: usize,
}

/// One certificate of a chain listing.
#[derive(Debug)]
pub struct ChainEntry {
    pub index: usize,
    pub subject: String,
    pub issuer: String,
    pub not_before: String,
    pub not_after: String,
}

/// What a check produces, by mode.
#[derive(Debug)]
pub enum Report {
    Leaf(CheckResult),
    Chain(Vec<ChainEntry>),
}

/// What to check and how.
#[derive(Debug)]
pub struct CheckRequest {
    pub domain: String,
    pub port: u16,
    /// List the whole chain instead of summarising the leaf.
    pub chain: bool,
    /// Warning threshold in days; zero or less disables it.
    pub warn_days: i64,
}

/// `res` summarises the decoded leaf `c` of a chain of `depth`
/// certificates, checked at `now`.
pub open spec fn leaf_result_of(
    res: CheckResult,
    domain: Seq<char>,
    port: u16,
    c: CertificateModel,
    depth: int,
    now: int,
) -> bool {
    &&& res.domain@ == domain
    &&& res.port == port
    &&& res.valid_now == within_window(c.not_before, c.not_after, now)
    &&& res.expires@ == c.not_after_text
    &&& res.days_until_expiry as int == days_between(now, c.not_after)
    &&& res.issuer@ == c.issuer
    &&& res.subject@ == c.subject
    &&& string_views(res.sans@) == c.sans
    &&& res.chain_depth as int == depth
}

/// `e` lists the decoded certificate `c` at position `index`.
pub open spec fn chain_entry_of(e: ChainEntry, index: int, c: CertificateModel) -> bool {
    &&& e.index as int == index
    &&& e.subject@ == c.subject
    &&& e.issuer@ == c.issuer
    &&& e.not_before@ == c.not_before_text
    &&& e.not_after@ == c.not_after_text
}

/// `r` is `ParseCert` with the given reason.
pub open spec fn is_parse_error(r: SslError, reason: Seq<char>) -> bool {
    r matches SslError::ParseCert { reason: x } && x@ == reason
}

/// The outcome of leaf mode on `chain` at `now`.
pub open spec fn leaf_outcome(
    r: Result<CheckResult, SslError>,
    domain: Seq<char>,
    port: u16,
    chain: Seq<Seq<u8>>,
    warn_days: i64,
    now: i64,
) -> bool {
    match parse_outcome(chain[0]) {
        Err(reason) => r matches Err(e) && is_parse_error(e, reason),
        Ok(c) => {
            let days = days_between(now as int, c.not_after);
            if warning_due(days, warn_days as int) {
                r matches Err(SslError::ExpiringSoon { days_until_expiry: d, warn_days: w }) && d
                    == days && w == warn_days
            } else {
                r matches Ok(res) && leaf_result_of(res, domain, port, c, chain.len() as int, now as int)
            }
        },
    }
}

/// The outcome of chain mode on `chain`: one entry per certificate in
/// order, or the first decoding failure.
pub open spec fn chain_outcome(r: Result<Vec<ChainEntry>, SslError>, chain: Seq<Seq<u8>>) -> bool {
    match r {
        Ok(v) => {
            &&& v@.len() == chain.len()
            &&& forall|i: int|
                0 <= i < chain.len() ==> (#[trigger] parse_outcome(chain[i]) matches Ok(c)
                    && chain_entry_of(v@[i], i, c))
        },
        Err(e) => exists|i: int|
            0 <= i < chain.len() && (forall|j: int| 0 <= j < i ==> #[trigger] parse_outcome(chain[j]) is Ok)
                && (#[trigger] parse_outcome(chain[i]) matches Err(reason) && is_parse_error(e, reason)),
    }
}

/// Leaf mode: decodes the leaf, applies the warning policy and summarises
/// the leaf with the chain's depth, as of `now` (seconds since the Unix
/// epoch).
pub fn leaf_report(domain: &String, port: u16, chain: &CertificateChain, warn_days: i64, now: i64) -> (r:
    Result<CheckResult, SslError>)
    ensures
        leaf_outcome(r, domain@, port, chain@, warn_days, now),
{
    let parsed = parse_cert(chain.leaf().as_slice())?;
    let days = days_until_expiry(parsed.not_after, now);
    check_warning(days, warn_days)?;
    Ok(
        CheckResult {
            domain: domain.clone(),
            port,
            valid_now: valid_at(parsed.not_before, parsed.not_after, now),
            expires: parsed.not_after_text,
            days_until_expiry: days,
            issuer: parsed.issuer,
            subject: parsed.subject,
            sans: parsed.sans,
            chain_depth: chain.len(),
        },
    )
}

/// Chain mode: decodes every certificate and lists them in chain order,
/// leaf first. Any decoding failure aborts the listing.
pub fn chain_report(chain: &CertificateChain) -> (r: Result<Vec<ChainEntry>, SslError>)
    ensures
        chain_outcome(r, chain@),
{
    let mut out: Vec<ChainEntry> = Vec::new();
    let mut i: usize = 0;
    let n = chain.len();
    while i < n
        invariant
            n == chain@.len(),
            i <= n,
            out@.len() == i,
            forall|k: int|
                0 <= k < i ==> (#[trigger] parse_outcome(chain@[k]) matches Ok(c) && chain_entry_of(
                    out@[k],
                    k,
                    c,
                )),
        decreases n - i,
    {
        let parsed = match parse_cert(chain.get(i).as_slice()) {
            Ok(p) => p,
            Err(e) => {
                assert(forall|j: int| 0 <= j < i ==> #[trigger] parse_outcome(chain@[j]) is Ok);
                return Err(e);
            },
        };
        out.push(
            ChainEntry {
                index: i,
                subject: parsed.subject,
                issuer: parsed.issuer,
                not_before: parsed.not_before_text,
                not_after: parsed.not_after_text,
            },
        );
        i = i + 1;
    }
    Ok(out)
}

/// The outcome of a whole check at `now`.
pub open spec fn check_outcome(r: Result<Report, SslError>, request: CheckRequest, chain: Seq<Seq<u8>>, now: i64) -> bool {
    if request.chain {
        match r {
            Ok(Report::Chain(v)) => chain_outcome(Ok(v), chain),
            Ok(Report::Leaf(_)) => false,
            Err(e) => chain_outcome(Err(e), chain),
        }
    } else {
        match r {
            Ok(Report::Leaf(res)) => leaf_outcome(Ok(res), request.domain@, request.port, chain, request.warn_days, now),
            Ok(Report::Chain(_)) => false,
            Err(e) => leaf_outcome(Err(e), request.domain@, request.port, chain, request.warn_days, now),
        }
    }
}

/// Runs the mode that `request` selects on `chain` at `now`. The warning
/// policy applies in leaf mode only.
pub fn check(request: &CheckRequest, chain: &CertificateChain, now: i64) -> (r: Result<Report, SslError>)
    ensures
        check_outcome(r, *request, chain@, now),
{
    if request.chain {
        match chain_report(chain) {
            Ok(v) => Ok(Report::Chain(v)),
            Err(e) => Err(e),
        }
    } else {
        match leaf_report(&request.domain, request.port, chain, request.warn_days, now) {
            Ok(res) => Ok(Report::Leaf(res)),
            Err(e) => Err(e),
        }
    }
}

/// Leaf mode on a leaf with exactly `n` days remaining reports
/// `ExpiringSoon` under a threshold of `n`, and succeeds under a threshold
/// of `n - 1`.
pub proof fn lemma_leaf_warning_boundary(
    at_n: Result<CheckResult, SslError>,
    below_n: Result<CheckResult, SslError>,
    domain: Seq<char>,
    port: u16,
    chain: Seq<Seq<u8>>,
    n: i64,
    now: i64,
)
    requires
        n > 0,
        parse_outcome(chain[0]) matches Ok(c) && days_between(now as int, c.not_after) == n,
        leaf_outcome(at_n, domain, port, chain, n, now),
        leaf_outcome(below_n, domain, port, chain, (n - 1) as i64, now),
    ensures
        at_n matches Err(SslError::ExpiringSoon { days_until_expiry: d, warn_days: w }) && d == n && w
            == n,
        below_n is Ok,
{
    lemma_warning_threshold_boundary(n as int);
}

} // verus!
