use chrono::{DateTime, TimeDelta, Utc};
use smart_loan_recovery::clock::{Timestamp, MAX_SECS, MIN_SECS, NANOS_PER_SEC, SECS_PER_DAY};

fn to_chrono(t: &Timestamp) -> Option<DateTime<Utc>> {
    DateTime::from_timestamp(t.secs, t.nanos)
}

fn from_chrono(d: &DateTime<Utc>) -> Timestamp {
    Timestamp { secs: d.timestamp(), nanos: d.timestamp_subsec_nanos() }
}

fn instants() -> Vec<Timestamp> {
    vec![
        Timestamp { secs: 0, nanos: 0 },
        Timestamp { secs: 0, nanos: 1 },
        Timestamp { secs: 1, nanos: 0 },
        Timestamp { secs: -1, nanos: 999_999_999 },
        Timestamp { secs: 1_700_000_000, nanos: 123_456_789 },
        Timestamp { secs: 1_483_228_799, nanos: 1_500_000_000 },
        Timestamp { secs: 1_483_228_799, nanos: 999_999_999 },
        Timestamp { secs: 1_483_228_800, nanos: 200_000_000 },
        Timestamp { secs: -61, nanos: 1_000_000_000 },
        Timestamp { secs: MIN_SECS, nanos: 0 },
        Timestamp { secs: MAX_SECS, nanos: 999_999_999 },
        Timestamp { secs: MAX_SECS, nanos: 1_999_999_999 },
    ]
}

#[test]
fn the_range_is_the_range_of_chrono() {
    assert_eq!(DateTime::<Utc>::MIN_UTC.timestamp(), MIN_SECS);
    assert_eq!(DateTime::<Utc>::MAX_UTC.timestamp(), MAX_SECS);
    assert_eq!(NANOS_PER_SEC, 1_000_000_000);
    assert_eq!(SECS_PER_DAY, 86_400);
}

#[test]
fn wellformed_means_representable_by_chrono() {
    let mut candidates = instants();
    candidates.extend(vec![
        Timestamp { secs: MIN_SECS - 1, nanos: 0 },
        Timestamp { secs: MAX_SECS + 1, nanos: 0 },
        Timestamp { secs: i64::MIN, nanos: 0 },
        Timestamp { secs: i64::MAX, nanos: 0 },
        Timestamp { secs: 0, nanos: 1_000_000_000 },
        Timestamp { secs: 59, nanos: 1_000_000_000 },
        Timestamp { secs: 59, nanos: 2_000_000_000 },
        Timestamp { secs: -1, nanos: 1_000_000_000 },
        Timestamp { secs: -2, nanos: 1_000_000_000 },
        Timestamp { secs: 119, nanos: 1_999_999_999 },
        Timestamp { secs: 5, nanos: u32::MAX },
        Timestamp { secs: MIN_SECS + 59, nanos: 1_000_000_000 },
        Timestamp { secs: MIN_SECS + 58, nanos: 1_000_000_000 },
    ]);
    for t in candidates {
        assert_eq!(t.is_wellformed(), to_chrono(&t).is_some(), "{:?}", t);
    }
}

#[test]
fn after_orders_instants_as_chrono_does() {
    for a in instants() {
        for b in instants() {
            let expected = to_chrono(&a).unwrap() > to_chrono(&b).unwrap();
            assert_eq!(a.after(&b), expected, "{:?} after {:?}", a, b);
        }
    }
}

#[test]
fn after_is_strict() {
    let t = Timestamp { secs: 10, nanos: 5 };
    assert!(!t.after(&t));
    assert!(Timestamp { secs: 10, nanos: 6 }.after(&t));
    assert!(Timestamp { secs: 11, nanos: 0 }.after(&t));
    assert!(!Timestamp { secs: 9, nanos: 999_999_999 }.after(&t));
}

#[test]
fn plus_days_adds_as_chrono_does() {
    let steps: Vec<i64> =
        vec![0, 1, -1, 30, -30, 360, 365, 10_000, -10_000, 96_000_000, -96_000_000, 200_000_000];
    for t in instants() {
        for days in steps.iter() {
            let expected = TimeDelta::try_days(*days)
                .and_then(|delta| to_chrono(&t).unwrap().checked_add_signed(delta))
                .map(|d| from_chrono(&d));
            assert_eq!(t.plus_days(*days), expected, "{:?} + {} days", t, days);
        }
    }
}

#[test]
fn plus_days_gives_none_outside_the_range() {
    let last = Timestamp { secs: MAX_SECS, nanos: 0 };
    assert_eq!(last.plus_days(1), None);
    assert_eq!(last.plus_days(0), Some(last));
    let first = Timestamp { secs: MIN_SECS, nanos: 0 };
    assert_eq!(first.plus_days(-1), None);
    assert_eq!(first.plus_days(i64::MAX), None);
    assert_eq!(first.plus_days(i64::MIN), None);
    let epoch = Timestamp { secs: 0, nanos: 0 };
    assert_eq!(epoch.plus_days(i64::MAX), None);
    assert_eq!(epoch.plus_days(i64::MIN), None);
}

#[test]
fn thirty_days_are_2592000_seconds() {
    let t = Timestamp { secs: 1_700_000_000, nanos: 42 };
    assert_eq!(t.plus_days(30), Some(Timestamp { secs: 1_702_592_000, nanos: 42 }));
}

#[test]
fn a_step_off_a_leap_second_lands_on_an_ordinary_second() {
    let leap = Timestamp { secs: 1_483_228_799, nanos: 1_500_000_000 };
    assert_eq!(
        leap.plus_days(1),
        Some(Timestamp { secs: 1_483_228_799 + 86_400, nanos: 500_000_000 })
    );
    assert_eq!(
        leap.plus_days(-1),
        Some(Timestamp { secs: 1_483_228_800 - 86_400, nanos: 500_000_000 })
    );
    assert_eq!(leap.plus_days(0), Some(leap));
}
