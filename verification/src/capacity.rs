//! Remaining-seat bookkeeping per hall, with optional per-gender sub-quotas.

use vstd::prelude::*;

use crate::halls::{all_halls, Gender, Hall};

verus! {

/// Seats left in one hall: a total, and optional per-gender sub-quotas.
/// A sub-quota of `None` means the roster defines no such constraint
/// for this hall, which leaves that gender unconstrained.
#[derive(Debug, Clone, Copy)]
pub struct HallQuota {
    pub total: i32,
    pub male: Option<i32>,
    pub female: Option<i32>,
}

/// Remaining capacity for every hall, consumed as the heuristic assigns seats.
#[derive(Debug, Clone, Copy)]
pub struct CapacityModel {
    pub main_hall: HallQuota,
    pub hall_one: HallQuota,
    pub gallery: HallQuota,
    pub basement: HallQuota,
    pub outside: HallQuota,
}

/// Decrement, saturating so an exhausted counter is left where it stands.
pub open spec fn spec_dec_sat(x: i32) -> i32 {
    if x > 0 {
        (x - 1) as i32
    } else {
        x
    }
}

/// Saturating decrement of an optional sub-quota; absent stays absent.
pub open spec fn spec_dec_opt(m: Option<i32>) -> Option<i32> {
    match m {
        Option::None => Option::None,
        Option::Some(v) => Option::Some(spec_dec_sat(v)),
    }
}

/// One seat consumed from a hall's slot by a candidate of gender `g`.
pub open spec fn spec_consume_slot(s: HallQuota, g: Option<Gender>) -> HallQuota {
    HallQuota {
        total: spec_dec_sat(s.total),
        male: if g == Option::Some(Gender::Male) {
            spec_dec_opt(s.male)
        } else {
            s.male
        },
        female: if g == Option::Some(Gender::Female) {
            spec_dec_opt(s.female)
        } else {
            s.female
        },
    }
}

impl CapacityModel {
    /// The slot record tracked for `h`.
    pub open spec fn spec_slots(self, h: Hall) -> HallQuota {
        match h {
            Hall::MainHall => self.main_hall,
            Hall::HallOne => self.hall_one,
            Hall::Gallery => self.gallery,
            Hall::Basement => self.basement,
            Hall::Outside => self.outside,
        }
    }

    /// Open total seats left in `h`.
    pub open spec fn spec_remaining(self, h: Hall) -> int {
        self.spec_slots(h).total as int
    }

    /// Whether `h` still has an open seat.
    pub open spec fn spec_open(self, h: Hall) -> bool {
        self.spec_remaining(h) > 0
    }

    /// Whether `h` can still take a candidate of gender `g` within its
    /// gender sub-quota; unconstrained genders and unknown genders always can.
    pub open spec fn spec_gender_open(self, h: Hall, g: Option<Gender>) -> bool {
        match g {
            Option::None => true,
            Option::Some(Gender::Male) => match self.spec_slots(h).male {
                Option::None => true,
                Option::Some(m) => m > 0,
            },
            Option::Some(Gender::Female) => match self.spec_slots(h).female {
                Option::None => true,
                Option::Some(f) => f > 0,
            },
        }
    }

    /// Build the model from one slot record per hall.
    pub fn new(
        main_hall: HallQuota,
        hall_one: HallQuota,
        gallery: HallQuota,
        basement: HallQuota,
        outside: HallQuota,
    ) -> (r: CapacityModel)
        ensures
            r.main_hall == main_hall,
            r.hall_one == hall_one,
            r.gallery == gallery,
            r.basement == basement,
            r.outside == outside,
    {
        CapacityModel { main_hall, hall_one, gallery, basement, outside }
    }

    /// The slot record tracked for `h`.
    pub fn slots(&self, h: Hall) -> (r: HallQuota)
        ensures
            r == self.spec_slots(h),
    {
        match h {
            Hall::MainHall => self.main_hall,
            Hall::HallOne => self.hall_one,
            Hall::Gallery => self.gallery,
            Hall::Basement => self.basement,
            Hall::Outside => self.outside,
        }
    }

    /// Current open total seats in `h`.
    pub fn remaining(&self, h: Hall) -> (r: i32)
        ensures
            r as int == self.spec_remaining(h),
    {
        self.slots(h).total
    }

    /// Open seats within the gender sub-quota of `h`, or `None` when the
    /// roster defines no sub-quota for that gender (unconstrained).
    pub fn remaining_for_gender(&self, h: Hall, g: Gender) -> (r: Option<i32>)
        ensures
            g == Gender::Male ==> r == self.spec_slots(h).male,
            g == Gender::Female ==> r == self.spec_slots(h).female,
    {
        let s = self.slots(h);
        match g {
            Gender::Male => s.male,
            Gender::Female => s.female,
        }
    }

    /// Whether `h` still has an open seat.
    pub fn is_open(&self, h: Hall) -> (r: bool)
        ensures
            r == self.spec_open(h),
    {
        self.slots(h).total > 0
    }

    /// Whether `h` can still take a candidate of gender `g` within its sub-quota.
    pub fn gender_open(&self, h: Hall, g: Option<Gender>) -> (r: bool)
        ensures
            r == self.spec_gender_open(h, g),
    {
        match g {
            Option::None => true,
            Option::Some(Gender::Male) => match self.slots(h).male {
                Option::None => true,
                Option::Some(m) => m > 0,
            },
            Option::Some(Gender::Female) => match self.slots(h).female {
                Option::None => true,
                Option::Some(f) => f > 0,
            },
        }
    }

    /// Consume one seat of `h` for a candidate of gender `g`, saturating:
    /// an exhausted counter is left unchanged rather than driven negative.
    /// Returns whether an open total seat was actually there to consume.
    pub fn consume(&mut self, h: Hall, g: Option<Gender>) -> (r: bool)
        ensures
            r == old(self).spec_open(h),
            final(self).spec_slots(h) == spec_consume_slot(old(self).spec_slots(h), g),
            forall|h2: Hall| h2 != h ==> final(self).spec_slots(h2) == old(self).spec_slots(h2),
    {
        let had_seat = self.is_open(h);
        let updated = consume_slot(self.slots(h), g);
        match h {
            Hall::MainHall => {
                self.main_hall = updated;
            },
            Hall::HallOne => {
                self.hall_one = updated;
            },
            Hall::Gallery => {
                self.gallery = updated;
            },
            Hall::Basement => {
                self.basement = updated;
            },
            Hall::Outside => {
                self.outside = updated;
            },
        }
        had_seat
    }

    /// The halls that still have an open seat, in canonical order.
    pub fn open_halls(&self) -> (r: Vec<Hall>)
        ensures
            r@ == all_halls().filter(|h: Hall| self.spec_open(h)),
            forall|j: int| 0 <= j < r@.len() ==> self.spec_open(#[trigger] r@[j]),
    {
        let halls = Hall::all();
        let mut out: Vec<Hall> = Vec::new();
        let n = halls.len();
        for i in 0..n
            invariant
                n == halls@.len(),
                halls@ =~= all_halls(),
                out@ =~= halls@.subrange(0, i as int).filter(|h: Hall| self.spec_open(h)),
                forall|j: int| 0 <= j < out@.len() ==> self.spec_open(#[trigger] out@[j]),
        {
            proof {
                assert(halls@.subrange(0, i + 1).drop_last() =~= halls@.subrange(0, i as int));
                assert(halls@.subrange(0, i + 1).last() == halls@[i as int]);
            }
            if self.is_open(halls[i]) {
                out.push(halls[i]);
            }
            proof {
                reveal(Seq::filter);
            }
        }
        proof {
            assert(halls@.subrange(0, n as int) =~= halls@);
        }
        out
    }
}

/// One seat of slot `s` consumed by a candidate of gender `g`, saturating.
fn consume_slot(s: HallQuota, g: Option<Gender>) -> (r: HallQuota)
    ensures
        r == spec_consume_slot(s, g),
{
    let total = if s.total > 0 {
        s.total - 1
    } else {
        s.total
    };
    let male = match (s.male, g) {
        (Option::Some(m), Option::Some(Gender::Male)) => Option::Some(
            if m > 0 {
                m - 1
            } else {
                m
            },
        ),
        (m, _) => m,
    };
    let female = match (s.female, g) {
        (Option::Some(f), Option::Some(Gender::Female)) => Option::Some(
            if f > 0 {
                f - 1
            } else {
                f
            },
        ),
        (f, _) => f,
    };
    HallQuota { total, male, female }
}

} // verus!
