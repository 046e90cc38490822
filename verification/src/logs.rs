//! Audit-log events. The engine's operations produce them; an outside
//! sink appends them, best-effort, outside the atomic commit.

use vstd::prelude::*;

use crate::clock;
use crate::ids;

verus! {

/// What happened, for the audit trail.
#[derive(Debug, Clone, Copy, PartialEq, Eq, Structural)]
pub enum ActivityType {
    UserLogin,
    UserLogout,
    UserCreated,
    UserUpdated,
    UserActivation,
    UserDeactivation,
    UserMarkedAttendance,
    AdminMarkedAttendanceForUser,
    UserImported,
    PasswordChanged,
    DeviceReset,
    EventCreated,
    EventUpdated,
    EventDeleted,
    EventCheckIn,
    RosterCreated,
    RosterUpdated,
    RosterDeleted,
    RosterActivated,
    AttendanceRevoked,
    RosterImported,
    UserHallUpdated,
}

/// The human reading of an activity, at the specification level.
pub open spec fn spec_activity_message(t: ActivityType) -> Seq<char> {
    match t {
        ActivityType::UserLogin => "Logged into the system."@,
        ActivityType::UserLogout => "Logged out of the system."@,
        ActivityType::UserCreated => "Created a new user."@,
        ActivityType::UserUpdated => "Updated a user's information."@,
        ActivityType::UserActivation => "Activated a user account."@,
        ActivityType::UserDeactivation => "Deactivated a user account."@,
        ActivityType::UserMarkedAttendance => "Marked a user's attendance."@,
        ActivityType::AdminMarkedAttendanceForUser => "Marked a user's attendance."@,
        ActivityType::UserImported => "Imported users from CSV."@,
        ActivityType::PasswordChanged => "Changed user password."@,
        ActivityType::DeviceReset => "Changed user device ID."@,
        ActivityType::EventCreated => "Created a new event."@,
        ActivityType::EventUpdated => "Updated an event."@,
        ActivityType::EventDeleted => "Deleted an event."@,
        ActivityType::EventCheckIn => "Checked into an event."@,
        ActivityType::RosterCreated => "Created a new roster."@,
        ActivityType::RosterUpdated => "Updated a roster."@,
        ActivityType::RosterDeleted => "Deleted a roster."@,
        ActivityType::RosterActivated => "Activated a roster."@,
        ActivityType::AttendanceRevoked => "Revoked a user's attendance."@,
        ActivityType::RosterImported => "Imported a new roster."@,
        ActivityType::UserHallUpdated => "Updated a user's hall assignment."@,
    }
}

impl ActivityType {
    /// The human reading of the activity.
    pub fn message(&self) -> (r: String)
        ensures
            r@ == spec_activity_message(*self),
    {
        match self {
            ActivityType::UserLogin => String::from_str("Logged into the system."),
            ActivityType::UserLogout => String::from_str("Logged out of the system."),
            ActivityType::UserCreated => String::from_str("Created a new user."),
            ActivityType::UserUpdated => String::from_str("Updated a user's information."),
            ActivityType::UserActivation => String::from_str("Activated a user account."),
            ActivityType::UserDeactivation => String::from_str("Deactivated a user account."),
            ActivityType::UserMarkedAttendance => String::from_str("Marked a user's attendance."),
            ActivityType::AdminMarkedAttendanceForUser => String::from_str(
                "Marked a user's attendance.",
            ),
            ActivityType::UserImported => String::from_str("Imported users from CSV."),
            ActivityType::PasswordChanged => String::from_str("Changed user password."),
            ActivityType::DeviceReset => String::from_str("Changed user device ID."),
            ActivityType::EventCreated => String::from_str("Created a new event."),
            ActivityType::EventUpdated => String::from_str("Updated an event."),
            ActivityType::EventDeleted => String::from_str("Deleted an event."),
            ActivityType::EventCheckIn => String::from_str("Checked into an event."),
            ActivityType::RosterCreated => String::from_str("Created a new roster."),
            ActivityType::RosterUpdated => String::from_str("Updated a roster."),
            ActivityType::RosterDeleted => String::from_str("Deleted a roster."),
            ActivityType::RosterActivated => String::from_str("Activated a roster."),
            ActivityType::AttendanceRevoked => String::from_str("Revoked a user's attendance."),
            ActivityType::RosterImported => String::from_str("Imported a new roster."),
            ActivityType::UserHallUpdated => String::from_str("Updated a user's hall assignment."),
        }
    }
}

/// One audit-log entry: who did what to which target, and when.
#[derive(Debug, Clone)]
pub struct ActivityLog {
    pub id: u128,
    pub user_id: u128,
    pub activity_type: ActivityType,
    pub target_id: Option<u128>,
    pub target_type: Option<String>,
    pub created_at: i64,
}

impl ActivityLog {
    /// A fresh entry for one activity by one person, stamped with a new
    /// identity and the present instant, with no target yet.
    pub fn new(activity_type: ActivityType, user_id: u128) -> (r: ActivityLog)
        ensures
            r.user_id == user_id,
            r.activity_type == activity_type,
            r.target_id is None,
            r.target_type is None,
    {
        ActivityLog {
            id: ids::fresh_id(),
            user_id,
            activity_type,
            target_id: Option::None,
            target_type: Option::None,
            created_at: clock::current_timestamp(),
        }
    }

    /// Name the record the activity acted on.
    pub fn set_target_id(self, target_id: u128) -> (r: ActivityLog)
        ensures
            r == (ActivityLog { target_id: Option::Some(target_id), ..self }),
    {
        ActivityLog { target_id: Option::Some(target_id), ..self }
    }

    /// Name the kind of record the activity acted on.
    pub fn set_target_type(self, target_type: String) -> (r: ActivityLog)
        ensures
            r == (ActivityLog { target_type: Option::Some(target_type), ..self }),
    {
        ActivityLog { target_type: Option::Some(target_type), ..self }
    }

    /// Seal the entry.
    pub fn finish(self) -> (r: ActivityLog)
        ensures
            r == self,
    {
        self
    }
}

} // verus!
