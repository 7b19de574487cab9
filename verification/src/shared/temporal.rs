//! Calendar dates and instants, carried as plain numbers.
//!
//! The library never computes with dates: it moves them between commands,
//! procedure parameters, rows and responses. Each value is kept as the
//! numbers from which a calendar library rebuilds it.

use vstd::prelude::*;

verus! {

/// A calendar date without a time zone, as the number of days since the day
/// before 1 January of year 1 in the proleptic Gregorian calendar.
#[derive(Debug, Clone, Copy, PartialEq, Eq, Structural)]
pub struct NaiveDate {
    pub days_from_ce: i32,
}

/// A date and time of day without a time zone: whole seconds since
/// 1970-01-01T00:00:00 and the nanoseconds past that second.
#[derive(Debug, Clone, Copy, PartialEq, Eq, Structural)]
pub struct NaiveDateTime {
    pub seconds: i64,
    pub nanos: u32,
}

/// An instant in UTC: whole seconds since 1970-01-01T00:00:00Z and the
/// nanoseconds past that second.
#[derive(Debug, Clone, Copy, PartialEq, Eq, Structural)]
pub struct DateTimeUtc {
    pub seconds: i64,
    pub nanos: u32,
}

impl DeepView for NaiveDate {
    type V = NaiveDate;

    open spec fn deep_view(&self) -> NaiveDate {
        *self
    }
}

impl DeepView for NaiveDateTime {
    type V = NaiveDateTime;

    open spec fn deep_view(&self) -> NaiveDateTime {
        *self
    }
}

impl DeepView for DateTimeUtc {
    type V = DateTimeUtc;

    open spec fn deep_view(&self) -> DateTimeUtc {
        *self
    }
}

} // verus!
