//! Event records and attendance reference data, as plain values. Dates
//! and instants are seconds since the epoch.

use vstd::prelude::*;

verus! {

/// Where an event takes place.
#[derive(Debug, Clone, Copy, PartialEq, Eq, Structural)]
pub enum Location {
    DOA,
    CHIDA,
    OTHER,
}

impl core::default::Default for Location {
    /// The customary venue.
    fn default() -> (r: Location)
        ensures
            r == Location::DOA,
    {
        Location::DOA
    }
}

/// How an attendance record was taken.
#[derive(Debug, Clone, Copy, PartialEq, Eq, Structural)]
pub enum AttendanceType {
    Remote,
    Onsite,
    Mandatory,
    Optional,
    Standard,
    Late,
    Excused,
}

impl core::default::Default for AttendanceType {
    /// Attendance is taken on site unless said otherwise.
    fn default() -> (r: AttendanceType)
        ensures
            r == AttendanceType::Onsite,
    {
        AttendanceType::Onsite
    }
}

/// A scheduled event people check into.
#[derive(Debug, Clone)]
pub struct Event {
    pub id: u128,
    pub title: String,
    pub description: String,
    pub date: i64,
    pub time: i64,
    pub grace_period_in_minutes: i32,
    pub attendance_type: AttendanceType,
    pub location: Location,
    pub created_by: u128,
    pub created_at: i64,
    pub updated_at: i64,
}

} // verus!
