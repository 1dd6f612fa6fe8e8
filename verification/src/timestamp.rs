//! Instants in time, held as plain numbers, and their RFC 3339 text.
//!
//! The calendar arithmetic is chrono's. What chrono computes is named here by two
//! uninterpreted functions, so that contracts can speak of it without restating it.

use chrono::DateTime;
use chrono::Utc;
use vstd::prelude::*;

verus! {

/// The RFC 3339 text that chrono writes for the instant `secs` whole seconds and `nanos`
/// nanoseconds after the Unix epoch, in UTC; `None` where chrono cannot hold that instant.
pub uninterp spec fn rfc3339_rendering(secs: i64, nanos: u32) -> Option<Seq<char>>;

/// What chrono reads from `text` as an RFC 3339 date and time: the instant in seconds and
/// nanoseconds after the Unix epoch, or the message of chrono's parse error.
pub uninterp spec fn rfc3339_reading(text: Seq<char>) -> Result<(i64, u32), Seq<char>>;

/// The instant that `text` spells, in seconds and nanoseconds after the Unix epoch; `None`
/// where chrono cannot read the text as an RFC 3339 date and time.
pub open spec fn instant_of(text: Seq<char>) -> Option<(i64, u32)> {
    match rfc3339_reading(text) {
        Ok(at) => Some(at),
        Err(_) => None,
    }
}

/// Whether the instant `a` comes strictly after the instant `b`.
pub open spec fn instant_later(a: (i64, u32), b: (i64, u32)) -> bool {
    a.0 > b.0 || (a.0 == b.0 && a.1 > b.1)
}

/// An instant in UTC that chrono can hold.
#[derive(Clone, Copy, Debug)]
pub struct Timestamp {
    secs: i64,
    nanos: u32,
}

impl Timestamp {
    #[verifier::type_invariant]
    spec fn representable(self) -> bool {
        rfc3339_rendering(self.secs, self.nanos) is Some
    }

    /// Whole seconds since the Unix epoch; negative before it.
    pub closed spec fn secs(self) -> i64 {
        self.secs
    }

    /// Nanoseconds since the last whole second; a thousand million or more inside a leap
    /// second.
    pub closed spec fn nanos(self) -> u32 {
        self.nanos
    }

    /// The instant as a pair: seconds, then nanoseconds.
    pub open spec fn instant(self) -> (i64, u32) {
        (self.secs(), self.nanos())
    }

    /// Whether `self` comes strictly after `other`.
    pub open spec fn later_than(self, other: Timestamp) -> bool {
        instant_later(self.instant(), other.instant())
    }

    /// The instant's RFC 3339 text.
    pub open spec fn text(self) -> Seq<char> {
        rfc3339_rendering(self.secs(), self.nanos())->0
    }

    /// Whole seconds since the Unix epoch.
    pub fn unix_seconds(&self) -> (r: i64)
        ensures
            r == self.secs(),
    {
        self.secs
    }

    /// Nanoseconds since the last whole second.
    pub fn subsec_nanos(&self) -> (r: u32)
        ensures
            r == self.nanos(),
    {
        self.nanos
    }

    /// Whether `self` comes strictly after `other`.
    pub fn is_after(&self, other: &Timestamp) -> (r: bool)
        ensures
            r == self.later_than(*other),
    {
        self.secs > other.secs || (self.secs == other.secs && self.nanos > other.nanos)
    }

    /// The system clock's reading: an instant with a text, never inside a leap second.
    pub fn now() -> (r: Timestamp)
        ensures
            rfc3339_rendering(r.secs(), r.nanos()) is Some,
            r.nanos() < 1_000_000_000,
    {
        system_clock()
    }

    /// The instant `secs` seconds and `nanos` nanoseconds after the Unix epoch, where chrono
    /// can hold it.
    pub fn from_unix(secs: i64, nanos: u32) -> (r: Option<Timestamp>)
        ensures
            r is Some == rfc3339_rendering(secs, nanos) is Some,
            r matches Some(t) ==> t.secs() == secs && t.nanos() == nanos,
    {
        match render_instant(secs, nanos) {
            Some(_) => Some(Timestamp { secs, nanos }),
            None => None,
        }
    }

    /// Reads an RFC 3339 date and time, whatever its offset, as an instant in UTC. An error
    /// carries chrono's message.
    pub fn parse_rfc3339(text: &str) -> (r: Result<Timestamp, String>)
        ensures
            match r {
                Ok(t) => rfc3339_reading(text@) == Ok::<(i64, u32), Seq<char>>(
                    (t.secs(), t.nanos()),
                ),
                Err(e) => rfc3339_reading(text@) == Err::<(i64, u32), Seq<char>>(e@),
            },
    {
        read_instant(text)
    }

    /// The instant that `text` spells, where chrono can read it.
    pub fn read(text: &str) -> (r: Option<Timestamp>)
        ensures
            match r {
                Some(t) => instant_of(text@) == Some(t.instant()),
                None => instant_of(text@) is None,
            },
    {
        match read_instant(text) {
            Ok(t) => Some(t),
            Err(_) => None,
        }
    }

    /// The instant's RFC 3339 text, with offset `+00:00`.
    pub fn to_rfc3339(&self) -> (r: String)
        ensures
            r@ == self.text(),
    {
        proof {
            use_type_invariant(self);
        }
        match render_instant(self.secs, self.nanos) {
            Some(s) => s,
            None => String::new(),
        }
    }
}

/// Calls chrono's `Utc::now` and takes the instant apart with `DateTime::timestamp` and
/// `DateTime::timestamp_subsec_nanos`. Nothing is claimed of the time it reads but what holds
/// of every reading: the parts come from a value that chrono holds, and the nanoseconds are
/// those of a `std::time::Duration`, which stay below a thousand million. `Utc::now` panics
/// where the system clock stands before the Unix epoch.
#[verifier::external_body]
fn system_clock() -> (r: Timestamp)
    ensures
        rfc3339_rendering(r.secs(), r.nanos()) is Some,
        r.nanos() < 1_000_000_000,
{
    let t = Utc::now();
    Timestamp { secs: t.timestamp(), nanos: t.timestamp_subsec_nanos() }
}

/// Calls chrono's `DateTime::from_timestamp` and, where that gives an instant, its
/// `DateTime::to_rfc3339`. The result is the named rendering of the two numbers.
#[verifier::external_body]
fn render_instant(secs: i64, nanos: u32) -> (r: Option<String>)
    ensures
        match r {
            Some(s) => rfc3339_rendering(secs, nanos) == Some(s@),
            None => rfc3339_rendering(secs, nanos) is None,
        },
{
    DateTime::from_timestamp(secs, nanos).map(|t| t.to_rfc3339())
}

/// Calls chrono's `DateTime::parse_from_rfc3339`, moves the instant to UTC with
/// `DateTime::with_timezone` and takes it apart; an error is handed on as the text that
/// chrono displays for it. The result is the named reading of the text, and an instant that
/// was read is one that chrono holds.
#[verifier::external_body]
fn read_instant(text: &str) -> (r: Result<Timestamp, String>)
    ensures
        match r {
            Ok(t) => rfc3339_reading(text@) == Ok::<(i64, u32), Seq<char>>((t.secs(), t.nanos()))
                && rfc3339_rendering(t.secs(), t.nanos()) is Some,
            Err(e) => rfc3339_reading(text@) == Err::<(i64, u32), Seq<char>>(e@),
        },
{
    match DateTime::parse_from_rfc3339(text) {
        Ok(t) => {
            let u = t.with_timezone(&Utc);
            Ok(Timestamp { secs: u.timestamp(), nanos: u.timestamp_subsec_nanos() })
        },
        Err(e) => Err(e.to_string()),
    }
}

} // verus!
