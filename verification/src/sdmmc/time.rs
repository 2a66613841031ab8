//! The clock of a device that has none.

use vstd::prelude::*;

verus! {

/// A point in time as the file system stamps it.
#[derive(Clone, Copy, Debug, PartialEq, Eq)]
pub struct Timestamp {
    pub year_since_1970: u8,
    pub zero_indexed_month: u8,
    pub zero_indexed_day: u8,
    pub hours: u8,
    pub minutes: u8,
    pub seconds: u8,
}

/// A clock that always shows the same instant.
#[derive(Clone, Copy, Debug, PartialEq, Eq, Default)]
pub struct StaticTimeSource {}

impl StaticTimeSource {
    /// Midnight on the first of January 2023.
    pub fn get_timestamp(&self) -> (stamp: Timestamp)
        ensures
            stamp == (Timestamp {
                year_since_1970: 53,
                zero_indexed_month: 0,
                zero_indexed_day: 0,
                hours: 0,
                minutes: 0,
                seconds: 0,
            }),
    {
        Timestamp {
            year_since_1970: 53,
            zero_indexed_month: 0,
            zero_indexed_day: 0,
            hours: 0,
            minutes: 0,
            seconds: 0,
        }
    }
}

} // verus!
