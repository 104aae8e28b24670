use vstd::prelude::*;
use vstd::arithmetic::div_mod::{lemma_div_is_ordered, lemma_fundamental_div_mod, lemma_fundamental_div_mod_converse};
use crate::types::{Span, Status, StatusKind, Timestamp};

verus! {

pub const NANOS_PER_SECOND: i128 = 1_000_000_000;

pub const NANOS_PER_HOUR: i128 = 3_600_000_000_000;

/// Nanoseconds from `now` until `last_update + trusting_period`; negative
/// once that instant has passed.
pub open spec fn nanos_left(last_update: Timestamp, trusting_period: Span, now: Timestamp) -> int {
    last_update.unix_nanos() + trusting_period.total_nanos() - now.unix_nanos()
}

/// Whole hours from `now` until `last_update + trusting_period`, rounded
/// down, so that any time past expiry counts as at least one hour past.
pub open spec fn hours_left(last_update: Timestamp, trusting_period: Span, now: Timestamp) -> int {
    nanos_left(last_update, trusting_period, now) / (NANOS_PER_HOUR as int)
}

/// The severity of a client with `hours` left, tested in this order:
/// negative, below `critical`, below `warning`, otherwise healthy.
pub open spec fn classification(hours: i64, warning: u64, critical: u64) -> Status {
    if hours < 0 {
        Status::Expired { hours_since_expiry: (-hours) as i64 }
    } else if hours < critical {
        Status::Critical { hours_until_expiry: hours }
    } else if hours < warning {
        Status::Warning { hours_until_expiry: hours }
    } else {
        Status::Healthy { hours_until_expiry: hours }
    }
}

proof fn lemma_nanos_bounds(seconds: i64, nanos: int)
    requires
        -3_000_000_000 <= nanos < 5_000_000_000,
    ensures
        -9_300_000_000_000_000_000_000_000_000 < seconds * 1_000_000_000 + nanos
            < 9_300_000_000_000_000_000_000_000_000,
{
    assert(-9_223_372_036_854_775_808_000_000_000 <= seconds * 1_000_000_000
        <= 9_223_372_036_854_775_807_000_000_000) by (nonlinear_arith)
        requires
            -9_223_372_036_854_775_808 <= seconds <= 9_223_372_036_854_775_807,
    ;
}

/// Whole hours left before a client whose trusted state was refreshed at
/// `last_update` stops being trusted, seen at `now`; negative once expired.
pub fn remaining_hours(last_update: Timestamp, trusting_period: Span, now: Timestamp) -> (r: i64)
    ensures
        r as int == hours_left(last_update, trusting_period, now),
        r < 0 <==> nanos_left(last_update, trusting_period, now) < 0,
        -8_000_000_000_000_000 < r < 8_000_000_000_000_000,
{
    proof {
        lemma_nanos_bounds(last_update.seconds, last_update.nanos as int);
        lemma_nanos_bounds(trusting_period.seconds, trusting_period.nanos as int);
        lemma_nanos_bounds(now.seconds, now.nanos as int);
    }
    let start = last_update.seconds as i128 * NANOS_PER_SECOND + last_update.nanos as i128;
    let span = trusting_period.seconds as i128 * NANOS_PER_SECOND + trusting_period.nanos as i128;
    let current = now.seconds as i128 * NANOS_PER_SECOND + now.nanos as i128;
    let left = start + span - current;
    assert(left as int == nanos_left(last_update, trusting_period, now));
    let bound: i128 = 27_900_000_000_000_000_000_000_000_000;
    proof {
        lemma_div_is_ordered(0, bound as int, NANOS_PER_HOUR as int);
    }
    if left >= 0 {
        proof {
            lemma_div_is_ordered(left as int, bound as int, NANOS_PER_HOUR as int);
        }
        (left / NANOS_PER_HOUR) as i64
    } else {
        let magnitude = -left;
        let up = magnitude + (NANOS_PER_HOUR - 1);
        let q = up / NANOS_PER_HOUR;
        proof {
            lemma_div_is_ordered(up as int, bound as int, NANOS_PER_HOUR as int);
            lemma_fundamental_div_mod(up as int, NANOS_PER_HOUR as int);
            let rem = up as int % (NANOS_PER_HOUR as int);
            assert(0 <= rem < NANOS_PER_HOUR);
            lemma_fundamental_div_mod_converse(
                left as int,
                NANOS_PER_HOUR as int,
                -(q as int),
                NANOS_PER_HOUR - 1 - rem,
            );
        }
        -(q as i64)
    }
}

/// The severity of a client with `hours` whole hours of trust left.
pub fn classify(hours: i64, warning: u64, critical: u64) -> (r: Status)
    requires
        hours > i64::MIN,
    ensures
        r == classification(hours, warning, critical),
{
    if hours < 0 {
        Status::Expired { hours_since_expiry: -hours }
    } else if (hours as u64) < critical {
        Status::Critical { hours_until_expiry: hours }
    } else if (hours as u64) < warning {
        Status::Warning { hours_until_expiry: hours }
    } else {
        Status::Healthy { hours_until_expiry: hours }
    }
}

} // verus!

verus! {

/// A client with negative hours left is expired, by as many hours as it
/// lacks, which is never negative.
pub proof fn lemma_negative_hours_expire(hours: i64, warning: u64, critical: u64)
    requires
        hours < 0,
    ensures
        classification(hours, warning, critical) == (Status::Expired {
            hours_since_expiry: (-hours) as i64,
        }),
        -hours >= 0,
{
}

/// Any time past expiry, however short, counts as at least one hour past:
/// the hours left are then negative, and so the client classifies as expired.
pub proof fn lemma_past_expiry_counts_negative(last_update: Timestamp, trusting_period: Span, now: Timestamp)
    requires
        nanos_left(last_update, trusting_period, now) < 0,
    ensures
        hours_left(last_update, trusting_period, now) <= -1,
{
    lemma_fundamental_div_mod(nanos_left(last_update, trusting_period, now), NANOS_PER_HOUR as int);
}

/// With the critical threshold below the warning one, hours in
/// `[critical, warning)` classify as warning, in `[0, critical)` as critical,
/// and from `warning` up as healthy; each threshold belongs to the less
/// severe side. The payload is the hours themselves.
pub proof fn lemma_threshold_bands(hours: i64, warning: u64, critical: u64)
    requires
        critical < warning,
        hours >= 0,
    ensures
        critical <= hours < warning ==> classification(hours, warning, critical) == (
        Status::Warning { hours_until_expiry: hours }),
        hours < critical ==> classification(hours, warning, critical) == (Status::Critical {
            hours_until_expiry: hours,
        }),
        hours >= warning ==> classification(hours, warning, critical) == (Status::Healthy {
            hours_until_expiry: hours,
        }),
        hours == critical ==> classification(hours, warning, critical).kind_of()
            == StatusKind::Warning,
        hours == warning ==> classification(hours, warning, critical).kind_of()
            == StatusKind::Healthy,
{
}

} // verus!
