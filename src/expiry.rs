use vstd::prelude::*;

use crate::error::SslError;

verus! {

/// Whole days from `now` until `not_after`, truncated toward zero.
pub open spec fn days_between(now: int, not_after: int) -> int {
    let diff = not_after - now;
    if diff >= 0 {
        diff / 86400
    } else {
        -((-diff) / 86400)
    }
}

/// Whether `now` lies in the closed window `[not_before, not_after]`.
pub open spec fn within_window(not_before: int, not_after: int, now: int) -> bool {
    not_before <= now && now <= not_after
}

/// Whether the warning policy turns `days` remaining into a failure.
pub open spec fn warning_due(days: int, warn_days: int) -> bool {
    warn_days > 0 && days <= warn_days
}

/// Whole days (truncated toward zero) between `now` and `not_after`, in
/// seconds since the Unix epoch; negative once the certificate has been
/// expired for a full day.
pub fn days_until_expiry(not_after: i64, now: i64) -> (r: i64)
    ensures
        r as int == days_between(now as int, not_after as int),
{
    let diff: i128 = not_after as i128 - now as i128;
    let days: i128 = if diff >= 0 {
        diff / 86400
    } else {
        -((-diff) / 86400)
    };
    days as i64
}

/// Whether `now` falls within the validity window, both ends included.
pub fn valid_at(not_before: i64, not_after: i64, now: i64) -> (r: bool)
    ensures
        r == within_window(not_before as int, not_after as int, now as int),
{
    not_before <= now && now <= not_after
}

/// Applies the warning policy: a positive `warn_days` fails the check when
/// `days_until_expiry` is at or below it; zero or less disables the check.
pub fn check_warning(days_until_expiry: i64, warn_days: i64) -> (r: Result<(), SslError>)
    ensures
        r is Ok <==> !warning_due(days_until_expiry as int, warn_days as int),
        r is Err ==> r == Err::<(), SslError>(
            SslError::ExpiringSoon { days_until_expiry, warn_days },
        ),
{
    if warn_days > 0 && days_until_expiry <= warn_days {
        Err(SslError::ExpiringSoon { days_until_expiry, warn_days })
    } else {
        Ok(())
    }
}

/// As "now" advances, the days left until expiry never grow.
pub proof fn lemma_days_non_increasing(not_after: int, earlier: int, later: int)
    requires
        earlier <= later,
    ensures
        days_between(later, not_after) <= days_between(earlier, not_after),
{
    let d1 = not_after - earlier;
    let d2 = not_after - later;
    assert(d2 <= d1);
    if d2 >= 0 {
        assert(d2 / 86400 <= d1 / 86400) by (nonlinear_arith)
            requires
                0 <= d2 <= d1,
        ;
    } else if d1 >= 0 {
        assert((-d2) / 86400 >= 0) by (nonlinear_arith)
            requires
                -d2 > 0,
        ;
        assert(d1 / 86400 >= 0) by (nonlinear_arith)
            requires
                d1 >= 0,
        ;
    } else {
        assert((-d1) / 86400 <= (-d2) / 86400) by (nonlinear_arith)
            requires
                0 < -d1 <= -d2,
        ;
    }
}

/// The day count is negative exactly when `not_after` lies at least one
/// full day in the past.
pub proof fn lemma_days_negative_iff_expired_a_day(not_after: int, now: int)
    ensures
        days_between(now, not_after) < 0 <==> not_after <= now - 86400,
{
    let diff = not_after - now;
    if diff >= 0 {
        assert(diff / 86400 >= 0) by (nonlinear_arith)
            requires
                diff >= 0,
        ;
    } else if -diff >= 86400 {
        assert((-diff) / 86400 >= 1) by (nonlinear_arith)
            requires
                -diff >= 86400,
        ;
    } else {
        assert((-diff) / 86400 == 0) by (nonlinear_arith)
            requires
                0 < -diff < 86400,
        ;
    }
}

/// Outside the last day before `now`, the day count is negative exactly
/// when `not_after` is in the past.
pub proof fn lemma_days_negative_iff_past(not_after: int, now: int)
    requires
        !(now - 86400 < not_after && not_after < now),
    ensures
        days_between(now, not_after) < 0 <==> not_after < now,
{
    lemma_days_negative_iff_expired_a_day(not_after, now);
}

/// With exactly `n` days left, a threshold of `n` warns and a threshold of
/// `n - 1` does not.
pub proof fn lemma_warning_threshold_boundary(n: int)
    requires
        n > 0,
    ensures
        warning_due(n, n),
        !warning_due(n, n - 1),
{
}

} // verus!
