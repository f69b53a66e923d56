//! Times of day, and the `chrono` computations on them.
use chrono::Timelike;
use vstd::prelude::*;

verus! {

/// Seconds since midnight and nanoseconds as `chrono::NaiveTime` accepts
/// them: a nanosecond part of a second or more marks a leap second, which
/// only follows second 59 of a minute.
pub open spec fn valid_time_parts(secs: u32, nanos: u32) -> bool {
    &&& secs < 86400
    &&& nanos < 2_000_000_000
    &&& nanos >= 1_000_000_000 ==> secs % 60 == 59
}

/// A time of day, held as seconds since midnight and nanoseconds.
pub struct TimeOfDay {
    secs: u32,
    nanos: u32,
}

impl TimeOfDay {
    #[verifier::type_invariant]
    spec fn well_formed(self) -> bool {
        valid_time_parts(self.secs, self.nanos)
    }

    /// The seconds and nanoseconds of the time.
    pub closed spec fn parts(self) -> (u32, u32) {
        (self.secs, self.nanos)
    }

    /// The time from its parts, where they are valid.
    pub fn new(secs: u32, nanos: u32) -> (r: Option<TimeOfDay>)
        ensures
            r is Some <==> valid_time_parts(secs, nanos),
            r matches Some(t) ==> t.parts() == (secs, nanos),
    {
        if secs < 86400 && nanos < 2_000_000_000 && (nanos < 1_000_000_000 || secs % 60 == 59) {
            Some(TimeOfDay { secs, nanos })
        } else {
            None
        }
    }

    pub fn secs(&self) -> (r: u32)
        ensures
            r == self.parts().0,
    {
        self.secs
    }

    pub fn nanos(&self) -> (r: u32)
        ensures
            r == self.parts().1,
    {
        self.nanos
    }

    /// Whole minutes from `earlier` to `self` (negative when `earlier` is
    /// the later time of day).
    pub fn minutes_since(&self, earlier: &TimeOfDay) -> (m: i64)
        ensures
            m == elapsed_minutes(self.parts().0, self.parts().1, earlier.parts().0, earlier.parts().1),
    {
        proof {
            use_type_invariant(self);
            use_type_invariant(earlier);
        }
        minutes_between(self.secs, self.nanos, earlier.secs, earlier.nanos)
    }
}

impl Clone for TimeOfDay {
    fn clone(&self) -> (r: Self)
        ensures
            r.parts() == self.parts(),
    {
        proof {
            use_type_invariant(self);
        }
        TimeOfDay { secs: self.secs, nanos: self.nanos }
    }
}

/// `a / b` as Rust's integer division computes it for `b > 0`: the quotient
/// rounded toward zero.
pub open spec fn quotient_toward_zero(a: int, b: int) -> int {
    if a >= 0 {
        a / b
    } else {
        -((-a) / b)
    }
}

/// `(now - last).num_minutes()` for two `chrono::NaiveTime` values given by
/// their seconds since midnight and nanoseconds. The difference is taken as
/// `NaiveTime::signed_duration_since` does: the whole seconds between them,
/// one more or less where a leap second (a nanosecond part of a second or
/// more) lies between, plus the nanosecond difference, carried with
/// floor division into whole seconds and a part in `[0, 1e9)`. Its whole
/// seconds (`TimeDelta::num_seconds`) round toward zero, and so do its
/// whole minutes.
pub open spec fn elapsed_minutes(now_secs: u32, now_nanos: u32, last_secs: u32, last_nanos: u32) -> int {
    let base = now_secs - last_secs;
    let secs = if now_secs > last_secs && last_nanos >= 1_000_000_000 {
        base + 1
    } else if now_secs < last_secs && now_nanos >= 1_000_000_000 {
        base - 1
    } else {
        base
    };
    let frac = now_nanos - last_nanos;
    let total = secs + frac / 1_000_000_000;
    let nanos = frac % 1_000_000_000;
    let whole = if total < 0 && nanos > 0 {
        total + 1
    } else {
        total
    };
    quotient_toward_zero(whole, 60)
}

/// Builds both `NaiveTime` values with `from_num_seconds_from_midnight_opt`
/// (which accepts exactly the valid parts, so neither `unwrap` fails) and
/// returns `(now - last).num_minutes()`. The contract restates that chrono
/// code (`signed_duration_since`, `TimeDelta::num_seconds`, `num_minutes`)
/// as `elapsed_minutes`.
#[verifier::external_body]
fn minutes_between(now_secs: u32, now_nanos: u32, last_secs: u32, last_nanos: u32) -> (m: i64)
    requires
        valid_time_parts(now_secs, now_nanos),
        valid_time_parts(last_secs, last_nanos),
    ensures
        m == elapsed_minutes(now_secs, now_nanos, last_secs, last_nanos),
{
    let now = chrono::NaiveTime::from_num_seconds_from_midnight_opt(now_secs, now_nanos).unwrap();
    let last = chrono::NaiveTime::from_num_seconds_from_midnight_opt(last_secs, last_nanos).unwrap();
    (now - last).num_minutes()
}

/// What `DateTime::parse_from_rfc3339(text)` gives, as the seconds since
/// midnight and nanoseconds of its time of day (`None` on a parse error).
pub uninterp spec fn chrono_rfc3339_time(text: Seq<char>) -> Option<(u32, u32)>;

/// Parses an RFC 3339 date-time and reads its time of day with
/// `num_seconds_from_midnight` and `nanosecond`.
/// The parts are valid: chrono keeps a `NaiveTime` under 86400 seconds with
/// a nanosecond part under two seconds, the second one only for a leap
/// second (parsed `:60` becomes second 59 plus a second of nanoseconds),
/// and an RFC 3339 offset is whole minutes, which keeps the second of the
/// minute.
#[verifier::external_body]
pub(crate) fn rfc3339_time_parts(text: &str) -> (r: Option<(u32, u32)>)
    ensures
        r == chrono_rfc3339_time(text@),
        r matches Some((s, n)) ==> valid_time_parts(s, n),
{
    match chrono::DateTime::parse_from_rfc3339(text) {
        Ok(dt) => Some((dt.time().num_seconds_from_midnight(), dt.time().nanosecond())),
        Err(_) => None,
    }
}

/// The time of day of an RFC 3339 date-time, where it parses.
pub fn rfc3339_time_of_day(text: &str) -> (r: Option<TimeOfDay>)
    ensures
        match chrono_rfc3339_time(text@) {
            Some((s, n)) => r matches Some(t) && t.parts() == (s, n),
            None => r is None,
        },
{
    match rfc3339_time_parts(text) {
        Some((s, n)) => TimeOfDay::new(s, n),
        None => None,
    }
}

} // verus!
