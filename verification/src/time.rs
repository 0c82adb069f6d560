//! Instants in UTC, held as `chrono` holds them: seconds since the Unix epoch
//! and the nanoseconds past that second.
use vstd::prelude::*;
use chrono::{DateTime, TimeDelta, Utc};
use std::time::{SystemTime, UNIX_EPOCH};

verus! {

/// Seconds since the epoch of the earliest instant `chrono` represents
/// (`-262143-01-01T00:00:00Z`).
pub const MIN_TIMESTAMP_SECS: i64 = -8_334_601_228_800;

/// Seconds since the epoch of the latest instant `chrono` represents
/// (`+262142-12-31T23:59:59Z`).
pub const MAX_TIMESTAMP_SECS: i64 = 8_210_266_876_799;

/// Seconds since the epoch of `0000-01-01T00:00:00Z` less one day: no RFC 3339
/// text (four-digit year, offset within 23:59) denotes an earlier instant.
pub const RFC3339_MIN_SECS: i64 = -62_167_305_600;

/// Seconds since the epoch of `9999-12-31T23:59:59Z` plus one day: no RFC 3339
/// text denotes a later instant.
pub const RFC3339_MAX_SECS: i64 = 253_402_387_199;

/// A pair (seconds, nanoseconds) that names an instant: the seconds lie in the
/// range above, and the nanoseconds exceed 999,999,999 only inside a leap
/// second, which follows a second whose number is 59 modulo 60.
pub open spec fn valid_instant(secs: int, nanos: int) -> bool {
    &&& MIN_TIMESTAMP_SECS <= secs <= MAX_TIMESTAMP_SECS
    &&& 0 <= nanos < 2_000_000_000
    &&& nanos >= 1_000_000_000 ==> secs % 60 == 59
}

/// Chronological order on (seconds, nanoseconds) pairs.
pub open spec fn instant_lt(a: (int, int), b: (int, int)) -> bool {
    a.0 < b.0 || (a.0 == b.0 && a.1 < b.1)
}

/// The instant `hours` hours before `t`, as `chrono` subtracts a whole number
/// of hours: a leap second counts as the second that follows it.
pub open spec fn minus_hours_spec(t: (int, int), hours: int) -> (int, int) {
    if t.1 >= 1_000_000_000 {
        (t.0 + 1 - hours * 3600, t.1 - 1_000_000_000)
    } else {
        (t.0 - hours * 3600, t.1)
    }
}

/// What `DateTime::parse_from_rfc3339` gives for `text`, as the instant's
/// (seconds, nanoseconds) in UTC, or `None` where it refuses the text.
pub uninterp spec fn rfc3339_instant(text: Seq<char>) -> Option<(int, int)>;

/// The text `DateTime::<Utc>::to_rfc3339` writes for the instant
/// (seconds, nanoseconds).
pub uninterp spec fn rfc3339_text(secs: int, nanos: int) -> Seq<char>;

/// Whether `t` is a reading of the system clock: an instant that a call of
/// `Timestamp::now` returned (its result, as Verus records it for the call).
pub open spec fn clock_gave(t: Timestamp) -> bool {
    call_ensures(Timestamp::now, (), Some(t))
}

/// An instant in UTC.
#[derive(Clone, Copy, Debug, PartialEq, Eq, Structural)]
pub struct Timestamp {
    secs: i64,
    nanos: u32,
}

impl View for Timestamp {
    type V = (int, int);

    closed spec fn view(&self) -> (int, int) {
        (self.secs as int, self.nanos as int)
    }
}

impl Timestamp {
    #[verifier::type_invariant]
    spec fn inv(self) -> bool {
        valid_instant(self.secs as int, self.nanos as int)
    }

    /// The instant `secs` seconds and `nanos` nanoseconds after the epoch, if
    /// that pair names an instant (as `DateTime::from_timestamp` accepts).
    pub fn from_unix(secs: i64, nanos: u32) -> (r: Option<Timestamp>)
        ensures
            r is Some <==> valid_instant(secs as int, nanos as int),
            r matches Some(t) ==> t@ == (secs as int, nanos as int),
    {
        if secs < MIN_TIMESTAMP_SECS || secs > MAX_TIMESTAMP_SECS || nanos >= 2_000_000_000 {
            return None;
        }
        let r = secs % 60;
        let r = if r < 0 {
            r + 60
        } else {
            r
        };
        assert(r as int == (secs as int) % 60);
        if nanos < 1_000_000_000 || r == 59 {
            Some(Timestamp { secs, nanos })
        } else {
            None
        }
    }

    /// Seconds since the epoch.
    pub fn unix_secs(&self) -> (s: i64)
        ensures
            s as int == self@.0,
            valid_instant(self@.0, self@.1),
    {
        proof {
            use_type_invariant(self);
        }
        self.secs
    }

    /// Nanoseconds past the second.
    pub fn subsec_nanos(&self) -> (n: u32)
        ensures
            n as int == self@.1,
            valid_instant(self@.0, self@.1),
    {
        proof {
            use_type_invariant(self);
        }
        self.nanos
    }

    /// Whether `self` is strictly before `other`.
    pub fn is_before(&self, other: &Timestamp) -> (b: bool)
        ensures
            b == instant_lt(self@, other@),
    {
        self.secs < other.secs || (self.secs == other.secs && self.nanos < other.nanos)
    }

    /// The instant of a clock reading `secs` seconds and `nanos` nanoseconds
    /// after the epoch, when that pair names an instant.
    pub fn from_clock(secs: u64, nanos: u32) -> (r: Option<Timestamp>)
        ensures
            r is Some <==> valid_instant(secs as int, nanos as int),
            r matches Some(t) ==> t@ == (secs as int, nanos as int),
    {
        if secs > MAX_TIMESTAMP_SECS as u64 {
            return None;
        }
        Timestamp::from_unix(secs as i64, nanos)
    }

    /// The current time: the system clock is read (`system_now`,
    /// `since_epoch`) and the reading taken by `from_clock`. When it is an
    /// instant, it is at or after the epoch and outside any leap second.
    /// `None` when the clock reads before the epoch or past the range of
    /// instants.
    pub fn now() -> (r: Option<Timestamp>)
        ensures
            r matches Some(t) ==> t@.0 >= 0 && t@.1 < 1_000_000_000 && valid_instant(t@.0, t@.1),
    {
        let clock = system_now();
        match since_epoch(&clock) {
            None => None,
            Some((secs, nanos)) => Timestamp::from_clock(secs, nanos),
        }
    }

    /// The epoch, `1970-01-01T00:00:00Z`.
    pub fn epoch() -> (t: Timestamp)
        ensures
            t@ == (0int, 0int),
    {
        Timestamp { secs: 0, nanos: 0 }
    }

    /// The instant an RFC 3339 text denotes (`rfc3339_instant`), if it is one.
    pub fn parse_rfc3339(text: &str) -> (r: Option<Timestamp>)
        ensures
            r is Some <==> rfc3339_instant(text@) is Some,
            r matches Some(t) ==> rfc3339_instant(text@) == Some(t@),
            r matches Some(t) ==> RFC3339_MIN_SECS <= t@.0 <= RFC3339_MAX_SECS,
    {
        parse_rfc3339_utc(text)
    }

    /// The RFC 3339 text of the instant, with the offset written `+00:00`
    /// (`rfc3339_text`).
    pub fn to_rfc3339(&self) -> (s: String)
        ensures
            s@ == rfc3339_text(self@.0, self@.1),
    {
        rfc3339_of(self)
    }

    /// The instant `hours` hours earlier (`minus_hours_spec`): a leap second
    /// counts as the second that follows it.
    pub fn minus_hours(&self, hours: i64) -> (t: Timestamp)
        requires
            1 <= hours <= 2_562_047_788_015,
            minus_hours_spec(self@, hours as int).0 >= MIN_TIMESTAMP_SECS,
        ensures
            t@ == minus_hours_spec(self@, hours as int),
            instant_lt(t@, self@),
    {
        proof {
            use_type_invariant(self);
            lemma_minus_hours_earlier(self@, hours as int);
        }
        hours_before(self, hours)
    }
}

/// `std::time::SystemTime`, carried from the clock to `since_epoch`.
#[verifier::external_type_specification]
#[verifier::external_body]
pub struct ExSystemTime(SystemTime);

/// The system clock's reading (`SystemTime::now`). The clock decides it;
/// nothing is stated of it.
#[verifier::external_body]
fn system_now() -> SystemTime {
    SystemTime::now()
}

/// The time since the epoch of a clock reading
/// (`SystemTime::duration_since(UNIX_EPOCH)`, as whole seconds and the
/// nanoseconds past them), or `None` for a reading before the epoch.
/// Trusted: a `Duration`'s sub-second nanoseconds are below one second.
#[verifier::external_body]
fn since_epoch(t: &SystemTime) -> (r: Option<(u64, u32)>)
    ensures
        r matches Some(d) ==> d.1 < 1_000_000_000,
{
    match t.duration_since(UNIX_EPOCH) {
        Ok(d) => Some((d.as_secs(), d.subsec_nanos())),
        Err(_) => None,
    }
}

/// Parses RFC 3339 text (`DateTime::parse_from_rfc3339`, then the instant in
/// UTC). Trusted: the result is the one `rfc3339_instant` names; chrono's
/// parser reads a four-digit year and an offset of at most 23:59, so an
/// accepted text denotes an instant between `RFC3339_MIN_SECS` and
/// `RFC3339_MAX_SECS`; every `DateTime` names a valid instant.
#[verifier::external_body]
fn parse_rfc3339_utc(text: &str) -> (r: Option<Timestamp>)
    ensures
        r is Some <==> rfc3339_instant(text@) is Some,
        r matches Some(t) ==> rfc3339_instant(text@) == Some(t@),
        r matches Some(t) ==> RFC3339_MIN_SECS <= t@.0 <= RFC3339_MAX_SECS,
        r matches Some(t) ==> valid_instant(t@.0, t@.1),
{
    match DateTime::parse_from_rfc3339(text) {
        Ok(dt) => {
            let utc = dt.with_timezone(&Utc);
            Some(Timestamp { secs: utc.timestamp(), nanos: utc.timestamp_subsec_nanos() })
        },
        Err(_) => None,
    }
}

/// The RFC 3339 text of an instant (`DateTime::<Utc>::to_rfc3339`, on the
/// `DateTime` that `DateTime::from_timestamp` builds from it). Trusted: the
/// text is the one `rfc3339_text` names.
#[verifier::external_body]
fn rfc3339_of(t: &Timestamp) -> (s: String)
    ensures
        s@ == rfc3339_text(t@.0, t@.1),
{
    DateTime::from_timestamp(t.secs, t.nanos).unwrap().to_rfc3339()
}

/// The instant `hours` hours before `t` (`DateTime - TimeDelta::hours`).
/// Trusted: the result is `minus_hours_spec`, the arithmetic of chrono's
/// `NaiveTime::overflowing_add_signed` for a negative whole number of
/// seconds; chrono panics when the result leaves its range, or when the
/// hours exceed what `TimeDelta::hours` takes, which `requires` rules out.
#[verifier::external_body]
fn hours_before(t: &Timestamp, hours: i64) -> (r: Timestamp)
    requires
        1 <= hours <= 2_562_047_788_015,
        minus_hours_spec(t@, hours as int).0 >= MIN_TIMESTAMP_SECS,
    ensures
        r@ == minus_hours_spec(t@, hours as int),
        valid_instant(r@.0, r@.1),
{
    let dt = DateTime::from_timestamp(t.secs, t.nanos).unwrap() - TimeDelta::hours(hours);
    Timestamp { secs: dt.timestamp(), nanos: dt.timestamp_subsec_nanos() }
}

/// Going back a positive number of hours gives an earlier instant, and a
/// valid one while it stays in range.
pub proof fn lemma_minus_hours_earlier(t: (int, int), hours: int)
    requires
        valid_instant(t.0, t.1),
        hours >= 1,
        minus_hours_spec(t, hours).0 >= MIN_TIMESTAMP_SECS,
    ensures
        instant_lt(minus_hours_spec(t, hours), t),
        valid_instant(minus_hours_spec(t, hours).0, minus_hours_spec(t, hours).1),
{
}

} // verus!

