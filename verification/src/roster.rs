//! Roster definitions: identity, activation window, per-hall quotas.

use vstd::prelude::*;

use crate::capacity::{CapacityModel, HallQuota};
use crate::clock;
use crate::halls::Hall;
use crate::ids;

verus! {

/// A time-bounded plan assigning people to halls: identity, activation
/// window, a year tag scoping historical lookback, one quota per hall,
/// and a flag selecting the gender-aware assignment policy.
#[derive(Debug, Clone)]
pub struct RosterDefinition {
    pub id: u128,
    pub name: String,
    pub is_active: bool,
    /// First day of the activation window, as a day number from the common era.
    pub start_date: i32,
    /// Last day of the activation window, as a day number from the common era.
    pub end_date: i32,
    /// The recurring period whose history is consulted during assignment.
    pub year: i32,
    /// Whether activation runs the gender-aware variant of the heuristic.
    pub gendered: bool,
    pub main_hall: HallQuota,
    pub hall_one: HallQuota,
    pub gallery: HallQuota,
    pub basement: HallQuota,
    pub outside: HallQuota,
    /// Seconds since the epoch at creation.
    pub created_at: i64,
}

/// An administrative request to create a roster definition.
#[derive(Debug, Clone)]
pub struct NewRoster {
    pub name: String,
    pub start_date: i32,
    pub end_date: i32,
    pub year: i32,
    pub gendered: bool,
    pub main_hall: HallQuota,
    pub hall_one: HallQuota,
    pub gallery: HallQuota,
    pub basement: HallQuota,
    pub outside: HallQuota,
}

/// An administrative request to update a roster definition; fields left
/// `None` are not touched.
#[derive(Debug, Clone)]
pub struct UpdateRosterRequest {
    pub id: u128,
    pub name: Option<String>,
    pub is_active: Option<bool>,
    pub start_date: Option<i32>,
    pub end_date: Option<i32>,
    pub year: Option<i32>,
    pub gendered: Option<bool>,
    pub main_hall: Option<HallQuota>,
    pub hall_one: Option<HallQuota>,
    pub gallery: Option<HallQuota>,
    pub basement: Option<HallQuota>,
    pub outside: Option<HallQuota>,
}

/// `x` floored at zero.
pub open spec fn spec_pos(x: i32) -> int {
    if x > 0 {
        x as int
    } else {
        0
    }
}

/// `r` updated by `req`: every present field overwrites the stored one,
/// absent fields are left as they were, and identity never changes.
pub open spec fn spec_apply_update(r: RosterDefinition, req: UpdateRosterRequest) -> RosterDefinition {
    RosterDefinition {
        id: r.id,
        created_at: r.created_at,
        name: if req.name is Some { req.name->0 } else { r.name },
        is_active: if req.is_active is Some { req.is_active->0 } else { r.is_active },
        start_date: if req.start_date is Some { req.start_date->0 } else { r.start_date },
        end_date: if req.end_date is Some { req.end_date->0 } else { r.end_date },
        year: if req.year is Some { req.year->0 } else { r.year },
        gendered: if req.gendered is Some { req.gendered->0 } else { r.gendered },
        main_hall: if req.main_hall is Some { req.main_hall->0 } else { r.main_hall },
        hall_one: if req.hall_one is Some { req.hall_one->0 } else { r.hall_one },
        gallery: if req.gallery is Some { req.gallery->0 } else { r.gallery },
        basement: if req.basement is Some { req.basement->0 } else { r.basement },
        outside: if req.outside is Some { req.outside->0 } else { r.outside },
    }
}

impl RosterDefinition {
    /// The quota this roster defines for `h`.
    pub open spec fn spec_quota(self, h: Hall) -> HallQuota {
        match h {
            Hall::MainHall => self.main_hall,
            Hall::HallOne => self.hall_one,
            Hall::Gallery => self.gallery,
            Hall::Basement => self.basement,
            Hall::Outside => self.outside,
        }
    }

    /// Whether `today` falls inside the activation window.
    pub open spec fn spec_window_contains(self, today: i32) -> bool {
        self.start_date <= today <= self.end_date
    }

    /// The open seats the roster offers over all halls; negative quotas
    /// offer none.
    pub open spec fn spec_total_capacity(self) -> int {
        spec_pos(self.main_hall.total) + spec_pos(self.hall_one.total) + spec_pos(
            self.gallery.total,
        ) + spec_pos(self.basement.total) + spec_pos(self.outside.total)
    }

    /// Whether the roster offers any seat at all.
    pub fn has_capacity(&self) -> (r: bool)
        ensures
            r == (self.spec_total_capacity() > 0),
    {
        self.main_hall.total > 0 || self.hall_one.total > 0 || self.gallery.total > 0
            || self.basement.total > 0 || self.outside.total > 0
    }

    /// The quota this roster defines for `h`.
    pub fn quota(&self, h: Hall) -> (r: HallQuota)
        ensures
            r == self.spec_quota(h),
    {
        match h {
            Hall::MainHall => self.main_hall,
            Hall::HallOne => self.hall_one,
            Hall::Gallery => self.gallery,
            Hall::Basement => self.basement,
            Hall::Outside => self.outside,
        }
    }

    /// Build an inactive definition from an administrative request, with a
    /// fresh identity and the present creation instant.
    pub fn create(new: NewRoster) -> (r: RosterDefinition)
        ensures
            !r.is_active,
            r.name == new.name,
            r.start_date == new.start_date,
            r.end_date == new.end_date,
            r.year == new.year,
            r.gendered == new.gendered,
            r.main_hall == new.main_hall,
            r.hall_one == new.hall_one,
            r.gallery == new.gallery,
            r.basement == new.basement,
            r.outside == new.outside,
    {
        RosterDefinition {
            id: ids::fresh_id(),
            name: new.name,
            is_active: false,
            start_date: new.start_date,
            end_date: new.end_date,
            year: new.year,
            gendered: new.gendered,
            main_hall: new.main_hall,
            hall_one: new.hall_one,
            gallery: new.gallery,
            basement: new.basement,
            outside: new.outside,
            created_at: clock::current_timestamp(),
        }
    }

    /// Apply an update request: every present field overwrites the stored
    /// one; absent fields are left as they were. Identity never changes.
    pub fn apply_update(&mut self, req: UpdateRosterRequest)
        ensures
            *final(self) == spec_apply_update(*old(self), req),
    {
        if let Option::Some(v) = req.name {
            self.name = v;
        }
        if let Option::Some(v) = req.is_active {
            self.is_active = v;
        }
        if let Option::Some(v) = req.start_date {
            self.start_date = v;
        }
        if let Option::Some(v) = req.end_date {
            self.end_date = v;
        }
        if let Option::Some(v) = req.year {
            self.year = v;
        }
        if let Option::Some(v) = req.gendered {
            self.gendered = v;
        }
        if let Option::Some(v) = req.main_hall {
            self.main_hall = v;
        }
        if let Option::Some(v) = req.hall_one {
            self.hall_one = v;
        }
        if let Option::Some(v) = req.gallery {
            self.gallery = v;
        }
        if let Option::Some(v) = req.basement {
            self.basement = v;
        }
        if let Option::Some(v) = req.outside {
            self.outside = v;
        }
    }
}

/// The live capacity model an activation run starts from: every hall's
/// remaining seats are exactly the roster's quotas.
pub fn initial_capacity(roster: &RosterDefinition) -> (r: CapacityModel)
    ensures
        forall|h: Hall| r.spec_slots(h) == roster.spec_quota(h),
{
    CapacityModel::new(
        roster.main_hall,
        roster.hall_one,
        roster.gallery,
        roster.basement,
        roster.outside,
    )
}

} // verus!
