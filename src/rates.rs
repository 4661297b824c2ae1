use vstd::prelude::*;

use crate::string_views;

verus! {

/// The ways a rates lookup can fail.
#[derive(Debug)]
pub enum RatesError {
    CurrencyNotFound(String),
    TargetCurrencyNotFound(String),
    RequestFailed,
    InvalidResponse,
    InvalidAmount,
    InvalidCurrencyCode(String),
}

/// The machine-readable code of each error kind.
pub open spec fn rates_error_code(e: RatesError) -> Seq<char> {
    match e {
        RatesError::CurrencyNotFound(_) => "NOT_FOUND"@,
        RatesError::TargetCurrencyNotFound(_) => "NOT_FOUND"@,
        RatesError::RequestFailed => "REQUEST_FAILED"@,
        RatesError::InvalidResponse => "BAD_RESPONSE"@,
        RatesError::InvalidAmount => "INVALID_ARGUMENT"@,
        RatesError::InvalidCurrencyCode(_) => "INVALID_ARGUMENT"@,
    }
}

impl RatesError {
    /// The stable code that names this error's kind.
    pub fn code(&self) -> (r: &'static str)
        ensures
            r@ == rates_error_code(*self),
    {
        match self {
            RatesError::CurrencyNotFound(_) => "NOT_FOUND",
            RatesError::TargetCurrencyNotFound(_) => "NOT_FOUND",
            RatesError::RequestFailed => "REQUEST_FAILED",
            RatesError::InvalidResponse => "BAD_RESPONSE",
            RatesError::InvalidAmount => "INVALID_ARGUMENT",
            RatesError::InvalidCurrencyCode(_) => "INVALID_ARGUMENT",
        }
    }
}

/// A list of currency codes.
#[derive(Debug)]
pub struct ListResponse {
    pub ok: bool,
    pub count: usize,
    pub items: Vec<String>,
}

/// A successful single-item answer.
#[derive(Debug)]
pub struct SingleResponse<T> {
    pub ok: bool,
    pub item: T,
}

/// An error as reported to the caller.
#[derive(Debug)]
pub struct ErrorResponse {
    pub ok: bool,
    pub error: String,
    pub code: String,
}

/// Flags shared by every rates command.
#[derive(Debug, Clone, Copy)]
pub struct GlobalFlags {
    pub json: bool,
    pub quiet: bool,
    pub verbose: bool,
}

/// Whether `c` has the Unicode `White_Space` property, as
/// `char::is_whitespace` decides it.
pub open spec fn is_white_space(c: char) -> bool {
    ('\u{9}' <= c && c <= '\u{d}') || c == ' ' || c == '\u{85}' || c == '\u{a0}' || c == '\u{1680}'
        || ('\u{2000}' <= c && c <= '\u{200a}') || c == '\u{2028}' || c == '\u{2029}' || c == '\u{202f}'
        || c == '\u{205f}' || c == '\u{3000}'
}

/// The first position at or after `i` that does not hold white space.
pub open spec fn white_space_end(s: Seq<char>, i: int) -> int
    decreases s.len() - i,
{
    if 0 <= i < s.len() && is_white_space(s[i]) {
        white_space_end(s, i + 1)
    } else {
        i
    }
}

/// The position just after the last character before `j` that is not
/// white space (0 when there is none).
pub open spec fn white_space_start(s: Seq<char>, j: int) -> int
    decreases j,
{
    if 0 < j <= s.len() && is_white_space(s[j - 1]) {
        white_space_start(s, j - 1)
    } else {
        j
    }
}

/// `s` without its leading and trailing white space.
pub open spec fn trimmed(s: Seq<char>) -> Seq<char> {
    let a = white_space_end(s, 0);
    let b = white_space_start(s, s.len() as int);
    if b <= a {
        Seq::empty()
    } else {
        s.subrange(a, b)
    }
}

/// `s` with every character mapped to its Unicode upper case.
pub uninterp spec fn uppercased(s: Seq<char>) -> Seq<char>;

/// Relies on `str::trim`: leading and trailing white space (as
/// `char::is_whitespace` decides it) removed.
#[verifier::external_body]
fn trim_text(s: &str) -> (r: &str)
    ensures
        r@ == trimmed(s@),
{
    s.trim()
}

/// Relies on `str::to_uppercase`: the upper-case equivalent of the text.
#[verifier::external_body]
fn upper_text(s: &str) -> (r: String)
    ensures
        r@ == uppercased(s@),
{
    s.to_uppercase()
}

/// Three ASCII upper-case letters.
pub open spec fn currency_code_ok(code: Seq<char>) -> bool {
    code.len() == 3 && forall|i: int| 0 <= i < 3 ==> 'A' <= #[trigger] code[i] <= 'Z'
}

/// The canonical form of a currency code: trimmed and upper-cased.
pub fn normalize_currency(code: &str) -> (r: String)
    ensures
        r@ == uppercased(trimmed(code@)),
{
    upper_text(trim_text(code))
}

/// Accepts a code whose canonical form is three ASCII upper-case letters.
pub fn validate_currency_code(code: &str) -> (r: Result<(), RatesError>)
    ensures
        r is Ok <==> currency_code_ok(uppercased(trimmed(code@))),
        r matches Err(e) ==> e matches RatesError::InvalidCurrencyCode(c) && c@ == code@,
{
    let upper = normalize_currency(code);
    let ok = if upper.unicode_len() == 3 {
        let a = upper.as_str().get_char(0);
        let b = upper.as_str().get_char(1);
        let c = upper.as_str().get_char(2);
        'A' <= a && a <= 'Z' && 'A' <= b && b <= 'Z' && 'A' <= c && c <= 'Z'
    } else {
        false
    };
    if ok {
        proof {
            assert forall|i: int| 0 <= i < 3 implies 'A' <= #[trigger] upper@[i] <= 'Z' by {
                if i == 0 {
                } else if i == 1 {
                } else {
                }
            }
        }
        Ok(())
    } else {
        Err(RatesError::InvalidCurrencyCode(code.to_string()))
    }
}

/// Length of the common prefix of `a` and `b`, counted from position `i`
/// on.
pub open spec fn common_prefix_from(a: Seq<char>, b: Seq<char>, i: int) -> int
    decreases a.len() - i,
{
    if i < 0 || i >= a.len() || i >= b.len() || a[i] != b[i] {
        i
    } else {
        common_prefix_from(a, b, i + 1)
    }
}

/// `a` sorts strictly before `b`, character by character (the order of
/// `String` in std).
pub open spec fn text_less(a: Seq<char>, b: Seq<char>) -> bool {
    let k = common_prefix_from(a, b, 0);
    (k == a.len() && k < b.len()) || (k < a.len() && k < b.len() && a[k] < b[k])
}

/// Each text sorts strictly before the next.
pub open spec fn strictly_sorted(v: Seq<Seq<char>>) -> bool {
    forall|i: int| 0 <= i < v.len() - 1 ==> #[trigger] text_less(v[i], v[i + 1])
}

proof fn lemma_common_prefix_symmetric(a: Seq<char>, b: Seq<char>, i: int)
    requires
        0 <= i,
    ensures
        common_prefix_from(a, b, i) == common_prefix_from(b, a, i),
        forall|j: int| i <= j < common_prefix_from(a, b, i) ==> a[j] == b[j],
    decreases a.len() - i,
{
    if i < a.len() && i < b.len() && a[i] == b[i] {
        lemma_common_prefix_symmetric(a, b, i + 1);
    }
}

/// Compares two texts: negative when `a` sorts first, zero when they are
/// equal, positive when `b` sorts first.
fn compare_text(a: &str, b: &str) -> (r: i8)
    ensures
        r < 0 <==> text_less(a@, b@),
        r == 0 <==> a@ == b@,
        r > 0 <==> text_less(b@, a@),
{
    let la = a.unicode_len();
    let lb = b.unicode_len();
    let mut i: usize = 0;
    while i < la && i < lb && a.get_char(i) == b.get_char(i)
        invariant
            la == a@.len(),
            lb == b@.len(),
            i <= la,
            i <= lb,
            common_prefix_from(a@, b@, 0) == common_prefix_from(a@, b@, i as int),
            forall|j: int| 0 <= j < i ==> a@[j] == b@[j],
        decreases la - i,
    {
        i = i + 1;
    }
    proof {
        lemma_common_prefix_symmetric(a@, b@, 0);
        assert(common_prefix_from(a@, b@, 0) == i);
    }
    if i < la && i < lb {
        if a.get_char(i) < b.get_char(i) {
            -1
        } else {
            1
        }
    } else if i == la && i == lb {
        assert(a@ =~= b@);
        0
    } else if i == la {
        -1
    } else {
        assert(a@.len() != b@.len());
        1
    }
}

/// Adds `x` to a strictly sorted list unless it is already there.
fn insert_sorted(out: &mut Vec<String>, x: String)
    requires
        strictly_sorted(string_views(old(out)@)),
    ensures
        strictly_sorted(string_views(final(out)@)),
        forall|t: Seq<char>|
            string_views(final(out)@).contains(t) <==> (string_views(old(out)@).contains(t) || t == x@),
{
    let ghost before = string_views(out@);
    let n = out.len();
    let mut i: usize = 0;
    let mut done = false;
    let mut equal = false;
    while !done && i < n
        invariant
            n == out@.len(),
            i <= n,
            before == string_views(out@),
            strictly_sorted(before),
            i > 0 ==> text_less(before[i - 1], x@),
            done ==> i < n && (equal ==> before[i as int] == x@) && (!equal ==> text_less(
                x@,
                before[i as int],
            )),
            !done ==> !equal,
        decreases n - i + if done {
            0int
        } else {
            1int
        },
    {
        let c = compare_text(out[i].as_str(), x.as_str());
        if c == 0 {
            equal = true;
            done = true;
        } else if c > 0 {
            done = true;
        } else {
            i = i + 1;
        }
    }
    if equal {
        assert forall|t: Seq<char>| before.contains(t) <==> (before.contains(t) || t == x@) by {
            if t == x@ {
                assert(before[i as int] == t);
            }
        }
        return;
    }
    out.insert(i, x);
    proof {
        let after = string_views(out@);
        assert(after =~= before.insert(i as int, x@));
        assert forall|k: int| 0 <= k < after.len() - 1 implies #[trigger] text_less(after[k], after[k + 1]) by {
            if k < i as int - 1 {
                assert(text_less(before[k], before[k + 1]));
            } else if k == i as int - 1 {
            } else if k == i as int {
            } else {
                assert(text_less(before[k - 1], before[(k - 1) + 1]));
            }
        }
        assert forall|t: Seq<char>| after.contains(t) <==> (before.contains(t) || t == x@) by {
            if after.contains(t) {
                let k = choose|k: int| 0 <= k < after.len() && after[k] == t;
                if k < i {
                    assert(before[k] == t);
                } else if k > i {
                    assert(before[k - 1] == t);
                }
            }
            if before.contains(t) {
                let k = choose|k: int| 0 <= k < before.len() && before[k] == t;
                if k < i {
                    assert(after[k] == t);
                } else {
                    assert(after[k + 1] == t);
                }
            }
            if t == x@ {
                assert(after[i as int] == t);
            }
        }
    }
}

/// The currency codes among `keys`, upper-cased, sorted and without
/// repeats.
pub fn list_currencies(keys: &Vec<String>) -> (r: Vec<String>)
    ensures
        strictly_sorted(string_views(r@)),
        forall|t: Seq<char>|
            string_views(r@).contains(t) <==> exists|i: int|
                0 <= i < keys@.len() && t == uppercased(#[trigger] keys@[i]@),
{
    let mut out: Vec<String> = Vec::new();
    let mut i: usize = 0;
    while i < keys.len()
        invariant
            i <= keys@.len(),
            strictly_sorted(string_views(out@)),
            forall|t: Seq<char>|
                string_views(out@).contains(t) <==> exists|j: int|
                    0 <= j < i && t == uppercased(#[trigger] keys@[j]@),
        decreases keys@.len() - i,
    {
        let u = upper_text(keys[i].as_str());
        insert_sorted(&mut out, u);
        proof {
            assert forall|t: Seq<char>|
                string_views(out@).contains(t) <==> exists|j: int|
                    0 <= j < i + 1 && t == uppercased(#[trigger] keys@[j]@) by {
                if t == uppercased(keys@[i as int]@) {
                    assert(0 <= i < i + 1 && t == uppercased(keys@[i as int]@));
                }
            }
        }
        i = i + 1;
    }
    out
}

} // verus!
