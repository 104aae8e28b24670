use ibc_monitor::classify::{classify, remaining_hours};
use ibc_monitor::types::{Span, Status, Timestamp};

const HOUR: i64 = 3600;

#[test]
fn negative_hours_are_expired() {
    assert_eq!(classify(-5, 48, 24), Status::Expired { hours_since_expiry: 5 });
    assert_eq!(classify(-1, 48, 24), Status::Expired { hours_since_expiry: 1 });
}

#[test]
fn threshold_bands() {
    assert_eq!(classify(0, 48, 24), Status::Critical { hours_until_expiry: 0 });
    assert_eq!(classify(23, 48, 24), Status::Critical { hours_until_expiry: 23 });
    assert_eq!(classify(24, 48, 24), Status::Warning { hours_until_expiry: 24 });
    assert_eq!(classify(30, 48, 24), Status::Warning { hours_until_expiry: 30 });
    assert_eq!(classify(47, 48, 24), Status::Warning { hours_until_expiry: 47 });
    assert_eq!(classify(48, 48, 24), Status::Healthy { hours_until_expiry: 48 });
    assert_eq!(classify(1000, 48, 24), Status::Healthy { hours_until_expiry: 1000 });
}

#[test]
fn remaining_hours_counts_whole_hours() {
    let last = Timestamp { seconds: 1_700_000_000, nanos: 0 };
    let trust = Span { seconds: 14 * 24 * HOUR, nanos: 0 };
    let now = Timestamp { seconds: 1_700_000_000 + 13 * 24 * HOUR, nanos: 0 };
    assert_eq!(remaining_hours(last, trust, now), 24);
    let now = Timestamp { seconds: 1_700_000_000 + 13 * 24 * HOUR + 1, nanos: 0 };
    assert_eq!(remaining_hours(last, trust, now), 23);
}

#[test]
fn remaining_hours_rounds_down_when_expired() {
    let last = Timestamp { seconds: 1_700_000_000, nanos: 0 };
    let trust = Span { seconds: 10 * HOUR, nanos: 0 };
    let now = Timestamp { seconds: 1_700_000_000 + 11 * HOUR + HOUR / 2, nanos: 0 };
    assert_eq!(remaining_hours(last, trust, now), -2);
    let now = Timestamp { seconds: 1_700_000_000 + 10 * HOUR + 10, nanos: 0 };
    assert_eq!(remaining_hours(last, trust, now), -1);
    let now = Timestamp { seconds: 1_700_000_000 + 10 * HOUR, nanos: 1 };
    assert_eq!(remaining_hours(last, trust, now), -1);
    assert_eq!(classify(remaining_hours(last, trust, now), 48, 24), Status::Expired { hours_since_expiry: 1 });
    let now = Timestamp { seconds: 1_700_000_000 + 10 * HOUR, nanos: 0 };
    assert_eq!(remaining_hours(last, trust, now), 0);
}

#[test]
fn remaining_hours_uses_nanoseconds() {
    let last = Timestamp { seconds: 0, nanos: 999_999_999 };
    let trust = Span { seconds: HOUR - 1, nanos: 1 };
    let now = Timestamp { seconds: 0, nanos: 0 };
    assert_eq!(remaining_hours(last, trust, now), 1);
    let trust = Span { seconds: HOUR, nanos: -1_000_000_000 };
    assert_eq!(remaining_hours(last, trust, now), 0);
}
