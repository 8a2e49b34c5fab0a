//! Instants as plain numbers, and their text.

use crate::primitives::{clock_now, format_zurich, zurich_text};
use vstd::prelude::*;

verus! {

/// An instant: whole seconds since the Unix epoch and the nanoseconds within
/// the second.
#[derive(Debug, Clone, Copy, PartialEq, Eq, Structural)]
pub struct Timestamp {
    /// Seconds since 1970-01-01 00:00:00 UTC; negative before it.
    pub secs: i64,
    /// Nanoseconds since the last whole second.
    pub nanos: u32,
}

/// The text shown for an instant that the calendar cannot represent.
pub open spec fn unknown_time() -> Seq<char> {
    "Unknown"@
}

/// The chrono pattern for day, month, year, hour and minute.
pub open spec fn minute_pattern() -> Seq<char> {
    "%d.%m.%Y %H:%M"@
}

/// The chrono pattern for day, month, year, hour, minute and second.
pub open spec fn second_pattern() -> Seq<char> {
    "%d.%m.%Y %H:%M:%S"@
}

impl Timestamp {
    /// Whether `self` is `other` or later.
    pub open spec fn at_or_after(self, other: Timestamp) -> bool {
        self.secs > other.secs || (self.secs == other.secs && self.nanos >= other.nanos)
    }

    /// The whole seconds from `earlier` to `self`, rounded down.
    pub open spec fn seconds_since(self, earlier: Timestamp) -> int {
        if self.nanos < earlier.nanos {
            self.secs - earlier.secs - 1
        } else {
            self.secs - earlier.secs
        }
    }

    /// The text of the instant on the wall clock of Europe/Zurich, to the
    /// minute.
    pub open spec fn local_text(self) -> Seq<char> {
        match zurich_text(self.secs, self.nanos, minute_pattern()) {
            Some(t) => t,
            None => unknown_time(),
        }
    }

    /// The text of the instant on the wall clock of Europe/Zurich, to the
    /// second.
    pub open spec fn local_text_with_seconds(self) -> Seq<char> {
        match zurich_text(self.secs, self.nanos, second_pattern()) {
            Some(t) => t,
            None => unknown_time(),
        }
    }

    /// The current time by the system clock.
    pub fn now() -> Timestamp {
        let reading = clock_now();
        Timestamp { secs: reading.0, nanos: reading.1 }
    }

    /// Tests whether `self` is `other` or later.
    pub fn is_at_or_after(&self, other: &Timestamp) -> (r: bool)
        ensures
            r == self.at_or_after(*other),
    {
        self.secs > other.secs || (self.secs == other.secs && self.nanos >= other.nanos)
    }

    /// The later of two instants.
    pub fn later_of(self, other: Timestamp) -> (r: Timestamp)
        ensures
            r == if self.at_or_after(other) {
                self
            } else {
                other
            },
    {
        if self.is_at_or_after(&other) {
            self
        } else {
            other
        }
    }

    /// The whole seconds from `earlier` to `self`, rounded down.
    pub fn whole_seconds_since(&self, earlier: &Timestamp) -> (r: i128)
        ensures
            r == self.seconds_since(*earlier),
    {
        let span: i128 = self.secs as i128 - earlier.secs as i128;
        if self.nanos < earlier.nanos {
            span - 1
        } else {
            span
        }
    }

    /// Formats the instant as `DD.MM.YYYY HH:MM` on the wall clock of
    /// Europe/Zurich; `Unknown` where the calendar cannot represent it.
    pub fn format_local(&self) -> (r: String)
        ensures
            r@ == self.local_text(),
    {
        match format_zurich(self.secs, self.nanos, "%d.%m.%Y %H:%M") {
            Some(t) => t,
            None => "Unknown".to_owned(),
        }
    }

    /// Formats the instant as `DD.MM.YYYY HH:MM:SS` on the wall clock of
    /// Europe/Zurich; `Unknown` where the calendar cannot represent it.
    pub fn format_local_with_seconds(&self) -> (r: String)
        ensures
            r@ == self.local_text_with_seconds(),
    {
        match format_zurich(self.secs, self.nanos, "%d.%m.%Y %H:%M:%S") {
            Some(t) => t,
            None => "Unknown".to_owned(),
        }
    }
}

} // verus!
