//! Instants of time and the clock.
//!
//! An instant is held the way `chrono` numbers it: whole seconds since the
//! Unix epoch, leap seconds not counted, and the nanoseconds into that second.
//! A nanosecond count of a full second or more marks a leap second, which can
//! only follow the 59th second of a minute.

use vstd::prelude::*;

verus! {

/// The first second `chrono` can hold: midnight before 1 January of the year
/// -262143.
pub const MIN_SECS: i64 = -8_334_601_228_800;

/// The last second `chrono` can hold: the end of 31 December 262142.
pub const MAX_SECS: i64 = 8_210_266_876_799;

/// Nanoseconds in one second.
pub const NANOS_PER_SEC: u32 = 1_000_000_000;

/// Seconds in one day.
pub const SECS_PER_DAY: i64 = 86_400;

/// A UTC instant.
#[derive(Clone, Copy, Debug, PartialEq, Eq, Structural)]
pub struct Timestamp {
    /// Seconds since 1970-01-01T00:00:00Z, not counting leap seconds.
    pub secs: i64,
    /// Nanoseconds since the start of that second; from `NANOS_PER_SEC`
    /// upwards inside a leap second.
    pub nanos: u32,
}

impl Timestamp {
    /// The instants that `chrono::DateTime<Utc>` can represent.
    pub open spec fn wf(&self) -> bool {
        &&& MIN_SECS <= self.secs <= MAX_SECS
        &&& self.nanos < 2 * NANOS_PER_SEC
        &&& (self.nanos >= NANOS_PER_SEC ==> self.secs as int % 60 == 59)
    }

    /// Whether the instant lies inside a leap second.
    pub open spec fn in_leap_second(&self) -> bool {
        self.nanos >= NANOS_PER_SEC
    }

    /// Strictly later than `other`: by the second, then by the nanosecond.
    pub open spec fn is_after(&self, other: &Timestamp) -> bool {
        self.secs > other.secs || (self.secs == other.secs && self.nanos > other.nanos)
    }

    /// The instant a whole number of days away, as `chrono` adds a duration:
    /// a step off a leap second first settles on an ordinary second, forwards
    /// onto the second that the leap second extends, backwards onto the one
    /// that follows it.
    pub open spec fn shifted_by_days(&self, days: int) -> Timestamp {
        if days == 0 || !self.in_leap_second() {
            Timestamp { secs: (self.secs + SECS_PER_DAY * days) as i64, nanos: self.nanos }
        } else if days > 0 {
            Timestamp {
                secs: (self.secs + SECS_PER_DAY * days) as i64,
                nanos: (self.nanos - NANOS_PER_SEC) as u32,
            }
        } else {
            Timestamp {
                secs: (self.secs + 1 + SECS_PER_DAY * days) as i64,
                nanos: (self.nanos - NANOS_PER_SEC) as u32,
            }
        }
    }

    /// Whether `shifted_by_days` stays within the representable range.
    pub open spec fn can_shift_by_days(&self, days: int) -> bool {
        if days >= 0 || !self.in_leap_second() {
            MIN_SECS <= self.secs + SECS_PER_DAY * days <= MAX_SECS
        } else {
            MIN_SECS <= self.secs + 1 + SECS_PER_DAY * days <= MAX_SECS
        }
    }

    /// Checks `wf` at run time.
    pub fn is_wellformed(&self) -> (r: bool)
        ensures
            r == self.wf(),
    {
        if self.secs < MIN_SECS || self.secs > MAX_SECS {
            return false;
        }
        if self.nanos < NANOS_PER_SEC {
            return true;
        }
        if self.nanos >= 2 * NANOS_PER_SEC {
            return false;
        }
        let shifted: i64 = self.secs - MIN_SECS;
        shifted % 60 == 59
    }

    /// Decides `is_after`.
    pub fn after(&self, other: &Timestamp) -> (r: bool)
        ensures
            r == self.is_after(other),
    {
        self.secs > other.secs || (self.secs == other.secs && self.nanos > other.nanos)
    }

    /// Moves the instant by whole days, or gives `None` when the result would
    /// leave the representable range.
    pub fn plus_days(&self, days: i64) -> (r: Option<Timestamp>)
        requires
            self.wf(),
        ensures
            r.is_some() == self.can_shift_by_days(days as int),
            r matches Some(t) ==> t == self.shifted_by_days(days as int) && t.wf(),
    {
        if days > (MAX_SECS - MIN_SECS) / SECS_PER_DAY + 1 || days < -((MAX_SECS - MIN_SECS)
            / SECS_PER_DAY) - 1 {
            return None;
        }
        let leaving_leap: bool = self.nanos >= NANOS_PER_SEC && days != 0;
        let carry: i64 = if leaving_leap && days < 0 { 1 } else { 0 };
        let secs: i64 = self.secs + carry + SECS_PER_DAY * days;
        if secs < MIN_SECS || secs > MAX_SECS {
            return None;
        }
        let nanos: u32 = if leaving_leap { self.nanos - NANOS_PER_SEC } else { self.nanos };
        Some(Timestamp { secs, nanos })
    }
}

/// The text that `chrono` writes for an instant in RFC 3339 form.
pub uninterp spec fn rfc3339_text(t: Timestamp) -> Seq<char>;

/// The instant that `chrono` reads from a text in RFC 3339 form, if it reads
/// one.
pub uninterp spec fn rfc3339_instant(text: Seq<char>) -> Option<Timestamp>;

/// Reads the system clock through `chrono::Utc::now`.
///
/// The clock is taken from the operating system, so nothing is claimed about
/// which instant comes back, only what holds of every reading: it is not
/// before the Unix epoch, it is representable, and it is never inside a leap
/// second.  `chrono` panics when the system clock is set before 1970.
#[verifier::external_body]
pub(crate) fn now() -> (t: Timestamp)
    ensures
        t.wf(),
        0 <= t.secs,
        t.nanos < NANOS_PER_SEC,
{
    let dt = chrono::Utc::now();
    Timestamp { secs: dt.timestamp(), nanos: dt.timestamp_subsec_nanos() }
}

/// Writes an instant with `chrono::DateTime::to_rfc3339`.
///
/// The text is a function of the instant alone and is only named here.
#[verifier::external_body]
pub(crate) fn format_rfc3339(t: &Timestamp) -> (text: String)
    requires
        t.wf(),
    ensures
        text@ == rfc3339_text(*t),
{
    chrono::DateTime::from_timestamp(t.secs, t.nanos).unwrap().to_rfc3339()
}

/// Reads an instant with `chrono::DateTime::parse_from_rfc3339` and moves it
/// to UTC.
///
/// Whether the text is accepted, and as which instant, is a function of the
/// text alone and is only named here; an instant that was read is one that
/// `chrono` can represent.
#[verifier::external_body]
pub(crate) fn parse_rfc3339(text: &str) -> (r: Option<Timestamp>)
    ensures
        r == rfc3339_instant(text@),
        r matches Some(t) ==> t.wf(),
{
    match chrono::DateTime::parse_from_rfc3339(text) {
        Ok(dt) => {
            let utc = dt.with_timezone(&chrono::Utc);
            Some(Timestamp { secs: utc.timestamp(), nanos: utc.timestamp_subsec_nanos() })
        },
        Err(_) => None,
    }
}

} // verus!
