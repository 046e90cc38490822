//! People records as the engine sees them. The profile store owns them;
//! the engine reads identity, gender and active status, and writes back
//! the current hall after a commit.

use vstd::prelude::*;

use crate::halls::Hall;
use crate::text::{spec_pad3, u64_to_padded3};

verus! {

/// The access role of a person's account.
#[derive(Debug, Clone, Copy, PartialEq, Eq, Structural)]
pub enum Role {
    Admin,
    User,
    Technical,
}

impl core::default::Default for Role {
    /// A newly registered person is an ordinary user.
    fn default() -> (r: Role)
        ensures
            r == Role::User,
    {
        Role::User
    }
}

/// A person's profile record. Dates and instants are plain numbers:
/// day counts from the common era and seconds since the epoch.
#[derive(Debug, Clone)]
pub struct User {
    pub id: u128,
    pub username: Option<String>,
    pub reg_no: String,
    pub first_name: String,
    pub last_name: String,
    pub email: String,
    pub password: String,
    pub dob: Option<i64>,
    pub avatar_url: Option<String>,
    pub created_at: i64,
    pub updated_at: i64,
    pub year_joined: String,
    pub current_roster_hall: Option<Hall>,
    pub current_roster_allocation: Option<String>,
    pub role: Role,
    pub last_seen: Option<i64>,
    pub device_id: Option<String>,
    pub is_active: bool,
    pub gender: Option<String>,
    pub address: Option<String>,
    pub city: Option<String>,
    pub state: Option<String>,
    pub country: Option<String>,
    pub phone: Option<String>,
    pub hall_derivation: i32,
}

impl User {
    /// Stamp the registration number: the joining year, the organisation
    /// tag, and the serial code zero-padded to three digits.
    pub fn set_reg_no(&mut self, code: i64)
        requires
            0 <= code,
        ensures
            final(self).reg_no@ == old(self).year_joined@ + "/KUD/"@ + spec_pad3(code as nat),
            *final(self) == (User { reg_no: final(self).reg_no, ..*old(self) }),
    {
        let mut s = self.year_joined.clone();
        s.append("/KUD/");
        let padded = u64_to_padded3(code as u64);
        s.append(padded.as_str());
        self.reg_no = s;
    }
}

/// A request to register one person.
#[derive(Debug, Clone)]
pub struct NewUser {
    pub first_name: String,
    pub last_name: String,
    pub email: String,
    pub password: String,
    pub dob: Option<i64>,
    pub year_joined: String,
    pub is_active: bool,
    pub role: Role,
    pub gender: Option<String>,
    pub phone: Option<String>,
}

/// A request to update one person's profile fields.
#[derive(Debug, Clone)]
pub struct UpdateUserRequest {
    pub first_name: Option<String>,
    pub last_name: Option<String>,
    pub dob: Option<i64>,
    pub gender: Option<String>,
    pub phone: Option<String>,
    pub address: Option<String>,
    pub city: Option<String>,
    pub state: Option<String>,
    pub country: Option<String>,
}

/// A filtered page request over people.
#[derive(Debug, Clone)]
pub struct UserFilter {
    pub page: Option<i64>,
    pub limit: Option<i64>,
    pub search: Option<String>,
}

/// A request to set one person's password.
#[derive(Debug, Clone)]
pub struct ChangePasswordRequest {
    pub email: String,
    pub password: String,
}

/// A request by an administrator to register one person.
#[derive(Debug, Clone)]
pub struct NewUserAdmin {
    pub first_name: String,
    pub last_name: String,
    pub email: String,
    pub password: String,
    pub dob: Option<i64>,
    pub year_joined: String,
    pub is_active: bool,
    pub role: Role,
    pub gender: Option<String>,
    pub phone: Option<String>,
}

/// One uploaded profile row, as the upload carries it.
#[derive(Debug, Clone)]
pub struct CsvUser {
    pub timestamp: String,
    pub first_name: String,
    pub last_name: String,
    pub email: String,
    pub username: String,
    pub dob: String,
    pub year_joined: String,
    pub gender: String,
    pub phone: String,
}

impl CsvUser {
    /// Normalise the joining year: strip `"Year "` markers and
    /// surrounding whitespace, keep the result if it reads as a whole
    /// number, and fall back to `"2025"` otherwise.
    pub fn validate(&mut self)
        ensures
            ({
                let cleaned = crate::text::spec_trim(
                    crate::text::spec_strip_year(old(self).year_joined@),
                );
                final(self).year_joined@ == if crate::text::spec_parse_i32_ok(cleaned) {
                    cleaned
                } else {
                    "2025"@
                }
            }),
            *final(self) == (CsvUser { year_joined: final(self).year_joined, ..*old(self) }),
    {
        let replaced = crate::text::strip_year(self.year_joined.as_str());
        let trimmed = crate::text::trim_spaces(replaced.as_str());
        if crate::text::parse_i32_ok(trimmed) {
            self.year_joined = trimmed.to_owned();
        } else {
            self.year_joined = String::from_str("2025");
        }
    }
}

} // verus!
