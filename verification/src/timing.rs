//! Wall-clock instants, the time that passes between two of them, and the
//! text that an instant is written down as.

use crate::text::text_of;
use vstd::prelude::*;
use vstd::string::*;

verus! {

/// A reading of the wall clock: whole seconds since the Unix epoch and the
/// nanoseconds into that second.
#[derive(Clone, Copy, Debug, PartialEq, Eq, Structural)]
pub struct Instant {
    pub secs: i64,
    pub nanos: u32,
}

/// The nanoseconds from `start` to `end`; negative where `end` lies before
/// `start`.
pub open spec fn nanos_between(start: Instant, end: Instant) -> int {
    (end.secs - start.secs) * 1_000_000_000 + (end.nanos - start.nanos)
}

/// The time from `start` to `end` in nanoseconds, never negative: a clock that
/// was set back between the two readings counts as no time passed, and a span
/// too long for 64 bits counts as the longest one that fits.
pub open spec fn elapsed_nanos(start: Instant, end: Instant) -> u64 {
    let span = nanos_between(start, end);
    if span < 0 {
        0
    } else if span > u64::MAX {
        u64::MAX
    } else {
        span as u64
    }
}

impl Instant {
    /// Makes an instant of a clock reading.
    pub fn new(secs: i64, nanos: u32) -> (instant: Instant)
        ensures
            instant.secs == secs,
            instant.nanos == nanos,
    {
        Instant { secs, nanos }
    }

    /// The time that passed from `self` to `end`, in nanoseconds.
    pub fn elapsed_until(&self, end: Instant) -> (span: u64)
        ensures
            span == elapsed_nanos(*self, end),
    {
        let whole: i128 = (end.secs as i128 - self.secs as i128) * 1_000_000_000;
        let span: i128 = whole + (end.nanos as i128 - self.nanos as i128);
        if span < 0 {
            0
        } else if span > u64::MAX as i128 {
            u64::MAX
        } else {
            span as u64
        }
    }
}

/// The text that `chrono` writes for an instant in the form of RFC 3339 and
/// ISO 8601 (`2024-05-17T10:15:30.250+02:00`): the instant is `secs` seconds
/// and `nanos` nanoseconds after the Unix epoch, and it is shown as the clock
/// reads `offset_secs` seconds east of UTC. `None` where `chrono` knows no
/// such date, time of day or offset.
pub uninterp spec fn rfc3339_text(secs: i64, nanos: u32, offset_secs: i32) -> Option<Seq<char>>;

/// Trusted: `chrono::DateTime::to_rfc3339` on the date-time that
/// `FixedOffset::east_opt`, `DateTime::from_timestamp` and
/// `DateTime::with_timezone` make of the three numbers. The text is taken to
/// depend on the three numbers alone.
#[verifier::external_body]
fn write_rfc3339(secs: i64, nanos: u32, offset_secs: i32) -> (text: Option<String>)
    ensures
        text_of(text) == rfc3339_text(secs, nanos, offset_secs),
{
    match (chrono::FixedOffset::east_opt(offset_secs), chrono::DateTime::from_timestamp(secs, nanos)) {
        (Some(offset), Some(utc)) => Some(utc.with_timezone(&offset).to_rfc3339()),
        _ => None,
    }
}

/// Whether `text` is an instant written down: the text of some instant at
/// some offset.
pub open spec fn is_timestamp(text: Seq<char>) -> bool {
    exists|secs: i64, nanos: u32, offset_secs: i32|
        rfc3339_text(secs, nanos, offset_secs) == Some(text)
}

/// An instant together with its text, as the clock reads at an offset from
/// UTC. There is no `Timestamp` whose text is not the text of its instant.
#[derive(Debug, PartialEq, Eq)]
pub struct Timestamp {
    at: Instant,
    offset_secs: i32,
    text: String,
}

/// The view of [`Timestamp`]: the same value with its text as a sequence of
/// characters.
pub struct TimestampView {
    pub at: Instant,
    pub offset_secs: i32,
    pub text: Seq<char>,
}

impl TimestampView {
    /// The text is the text of the instant at the offset.
    pub open spec fn wf(self) -> bool {
        rfc3339_text(self.at.secs, self.at.nanos, self.offset_secs) == Some(self.text)
    }
}

impl View for Timestamp {
    type V = TimestampView;

    closed spec fn view(&self) -> TimestampView {
        TimestampView { at: self.at, offset_secs: self.offset_secs, text: self.text@ }
    }
}

impl Clone for Timestamp {
    fn clone(&self) -> (copy: Self)
        ensures
            copy@ == self@,
    {
        proof {
            use_type_invariant(self);
        }
        Timestamp { at: self.at, offset_secs: self.offset_secs, text: self.text.clone() }
    }
}

impl Timestamp {
    /// What holds of every timestamp.
    #[verifier::type_invariant]
    pub open spec fn text_is_of_the_instant(self) -> bool {
        self@.wf()
    }

    /// Writes down the instant `at` as the clock reads `offset_secs` seconds
    /// east of UTC. There is a timestamp exactly where there is such a text.
    pub fn new(at: Instant, offset_secs: i32) -> (stamp: Option<Timestamp>)
        ensures
            stamp is Some <==> rfc3339_text(at.secs, at.nanos, offset_secs) is Some,
            stamp matches Some(made) ==> made@ == (TimestampView {
                at,
                offset_secs,
                text: rfc3339_text(at.secs, at.nanos, offset_secs)->0,
            }),
    {
        match write_rfc3339(at.secs, at.nanos, offset_secs) {
            Some(text) => Some(Timestamp { at, offset_secs, text }),
            None => None,
        }
    }

    /// The instant.
    pub fn instant(&self) -> (at: Instant)
        ensures
            at == self@.at,
    {
        self.at
    }

    /// The offset from UTC at which the instant is shown, in seconds to the
    /// east.
    pub fn offset_secs(&self) -> (offset_secs: i32)
        ensures
            offset_secs == self@.offset_secs,
    {
        self.offset_secs
    }

    /// The text of the instant.
    pub fn text(&self) -> (text: &str)
        ensures
            text@ == self@.text,
            self@.wf(),
    {
        proof {
            use_type_invariant(self);
        }
        self.text.as_str()
    }

    /// Gives up the timestamp for its text.
    pub fn into_text(self) -> (text: String)
        ensures
            text@ == self@.text,
            self@.wf(),
    {
        proof {
            use_type_invariant(&self);
        }
        self.text
    }
}

} // verus!
