//! Instants in time, as the service reports them and as requests name them.

use vstd::prelude::*;

verus! {

/// The day of the common era that is 1970-01-01, counted from January 1 of
/// the year 1 as day 1.
pub const EPOCH_DAY: i64 = 719_163;

/// The day of the common era on which the calendar of `chrono` begins:
/// January 1 of the year -262143.
pub const FIRST_DAY: i64 = -95_746_129;

/// The day of the common era on which the calendar of `chrono` ends:
/// December 31 of the year 262142.
pub const LAST_DAY: i64 = 95_745_399;

/// The first second that a [`Timestamp`] can name: midnight at the start of
/// [`FIRST_DAY`].
pub const MIN_SECS: i64 = (FIRST_DAY - EPOCH_DAY) * 86_400;

/// The last second that a [`Timestamp`] can name: the last second of
/// [`LAST_DAY`].
pub const MAX_SECS: i64 = (LAST_DAY - EPOCH_DAY) * 86_400 + 86_399;

/// Whether `secs` seconds since 1970-01-01T00:00:00Z, with `nanos`
/// nanoseconds more, name an instant that a [`Timestamp`] can hold: the day
/// lies within the calendar, and the nanoseconds stay below a thousand
/// million, or, for a leap second, below two thousand million in the last
/// second of a minute.
pub open spec fn representable(secs: int, nanos: int) -> bool {
    &&& FIRST_DAY <= secs / 86_400 + EPOCH_DAY <= LAST_DAY
    &&& 0 <= nanos < 2_000_000_000
    &&& nanos >= 1_000_000_000 ==> (secs % 86_400) % 60 == 59
}

/// The RFC 3339 text of the instant `secs` seconds and `nanos` nanoseconds
/// after 1970-01-01T00:00:00Z, in UTC, as `chrono` writes it.
pub uninterp spec fn rfc3339_text(secs: int, nanos: int) -> Seq<char>;

/// An instant in UTC: whole seconds since 1970-01-01T00:00:00Z and the
/// nanoseconds since the last whole second.
///
/// Every value is [`representable`], so `chrono` can hold it too.
#[derive(Debug, Clone, Copy, PartialEq, Eq, Structural)]
pub struct Timestamp {
    secs: i64,
    nanos: u32,
}

/// `chrono::DateTime::from_timestamp` followed by
/// `chrono::DateTime::to_rfc3339`.
///
/// `from_timestamp` splits the seconds into a day, counted from
/// [`EPOCH_DAY`], and the second of that day. It gives an instant exactly
/// when the day is one of chrono's calendar, [`FIRST_DAY`] to [`LAST_DAY`],
/// and the nanoseconds are below a thousand million, or below two thousand
/// million where the second is the last of its minute: that is
/// [`representable`]. For every other input it gives `None`, and so does
/// this function. `to_rfc3339` then writes the date, `T`, the time, the
/// fraction if there is one and `+00:00`; it does not fail, and the text
/// depends on the instant alone: it is named [`rfc3339_text`] here.
#[verifier::external_body]
fn chrono_rfc3339(secs: i64, nanos: u32) -> (text: Option<String>)
    ensures
        text.is_some() == representable(secs as int, nanos as int),
        text matches Some(s) ==> s@ == rfc3339_text(secs as int, nanos as int),
{
    match chrono::DateTime::from_timestamp(secs, nanos) {
        Some(instant) => Some(instant.to_rfc3339()),
        None => None,
    }
}

impl Timestamp {
    #[verifier::type_invariant]
    spec fn well_formed(self) -> bool {
        representable(self.secs as int, self.nanos as int)
    }

    /// The whole seconds since 1970-01-01T00:00:00Z.
    pub closed spec fn seconds(self) -> int {
        self.secs as int
    }

    /// The nanoseconds since the last whole second.
    pub closed spec fn subsec_nanos(self) -> int {
        self.nanos as int
    }

    /// The instant `secs` seconds and `nanos` nanoseconds after
    /// 1970-01-01T00:00:00Z, if it is [`representable`].
    pub fn new(secs: i64, nanos: u32) -> (made: Option<Timestamp>)
        ensures
            made.is_some() == representable(secs as int, nanos as int),
            made matches Some(t) ==> t.seconds() == secs && t.subsec_nanos() == nanos,
    {
        if secs < MIN_SECS || secs > MAX_SECS {
            return None;
        }
        if nanos >= 2_000_000_000 {
            return None;
        }
        // From the first second on, the seconds fall into whole minutes.
        if nanos >= 1_000_000_000 && (secs - MIN_SECS) % 60 != 59 {
            return None;
        }
        Some(Timestamp { secs, nanos })
    }

    /// The whole seconds since 1970-01-01T00:00:00Z.
    pub fn secs(&self) -> (secs: i64)
        ensures
            secs == self.seconds(),
    {
        self.secs
    }

    /// The nanoseconds since the last whole second.
    pub fn nanos(&self) -> (nanos: u32)
        ensures
            nanos == self.subsec_nanos(),
    {
        self.nanos
    }

    /// The RFC 3339 text of this instant.
    pub fn to_rfc3339(&self) -> (text: String)
        ensures
            text@ == rfc3339_text(self.seconds(), self.subsec_nanos()),
    {
        proof {
            use_type_invariant(self);
        }
        match chrono_rfc3339(self.secs, self.nanos) {
            Some(text) => text,
            None => vstd::pervasive::unreached(),
        }
    }
}

} // verus!
