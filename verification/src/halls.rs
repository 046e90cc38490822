//! The fixed set of physical halls, gender tags, and selection tiers.

use vstd::prelude::*;

verus! {

/// The physical locations a roster can assign people to.
/// A fixed closed enumeration; immutable reference data.
#[derive(Debug, Clone, Copy, PartialEq, Eq, Structural)]
pub enum Hall {
    MainHall,
    HallOne,
    Gallery,
    Basement,
    Outside,
}

/// A gender tag recognised by the gender-aware assignment policy.
#[derive(Debug, Clone, Copy, PartialEq, Eq, Structural)]
pub enum Gender {
    Male,
    Female,
}

/// The fallback tier under which a hall was selected for a candidate,
/// from most preferred to least constrained.
#[derive(Debug, Clone, Copy, PartialEq, Eq, Structural)]
pub enum SelectionTier {
    /// Open hall, not in the candidate's history, with gender capacity left.
    GenderMatched,
    /// Open hall, not in the candidate's history, gender quota ignored.
    HistoryAvoided,
    /// Open hall, history ignored.
    CapacityOnly,
    /// Any hall at all, capacity ignored.
    Unconstrained,
}

/// The halls in their canonical order.
pub open spec fn all_halls() -> Seq<Hall> {
    seq![Hall::MainHall, Hall::HallOne, Hall::Gallery, Hall::Basement, Hall::Outside]
}

/// Every hall occurs in `all_halls()`.
pub proof fn lemma_all_halls_complete(h: Hall)
    ensures
        all_halls().contains(h),
{
    match h {
        Hall::MainHall => assert(all_halls()[0] == h),
        Hall::HallOne => assert(all_halls()[1] == h),
        Hall::Gallery => assert(all_halls()[2] == h),
        Hall::Basement => assert(all_halls()[3] == h),
        Hall::Outside => assert(all_halls()[4] == h),
    }
}

impl Hall {
    /// Every hall, each exactly once, in canonical order.
    pub fn all() -> (r: Vec<Hall>)
        ensures
            r@ =~= all_halls(),
    {
        let mut v: Vec<Hall> = Vec::new();
        v.push(Hall::MainHall);
        v.push(Hall::HallOne);
        v.push(Hall::Gallery);
        v.push(Hall::Basement);
        v.push(Hall::Outside);
        v
    }

    /// The printable name of the hall, as it appears in exports.
    pub fn name(&self) -> (r: &'static str)
        ensures
            r@ == spec_hall_name(*self),
    {
        match self {
            Hall::MainHall => "MainHall",
            Hall::HallOne => "HallOne",
            Hall::Gallery => "Gallery",
            Hall::Basement => "Basement",
            Hall::Outside => "Outside",
        }
    }

    /// Keep only the halls that the candidate has not served in.
    pub fn get_available_halls(served_halls: &[Hall], available: Vec<Hall>) -> (r: Vec<Hall>)
        ensures
            r@ == available@.filter(|h: Hall| !served_halls@.contains(h)),
            forall|j: int|
                0 <= j < r@.len() ==> available@.contains(#[trigger] r@[j]) && !served_halls@.contains(
                    r@[j],
                ),
    {
        let mut out: Vec<Hall> = Vec::new();
        let n = available.len();
        for i in 0..n
            invariant
                n == available@.len(),
                out@ =~= available@.subrange(0, i as int).filter(
                    |h: Hall| !served_halls@.contains(h),
                ),
                forall|j: int|
                    0 <= j < out@.len() ==> available@.contains(#[trigger] out@[j])
                        && !served_halls@.contains(out@[j]),
        {
            proof {
                assert(available@.subrange(0, i + 1).drop_last() =~= available@.subrange(
                    0,
                    i as int,
                ));
                assert(available@.subrange(0, i + 1).last() == available@[i as int]);
            }
            if !contains_hall(served_halls, available[i]) {
                out.push(available[i]);
            }
            proof {
                reveal(Seq::filter);
            }
        }
        proof {
            assert(available@.subrange(0, n as int) =~= available@);
        }
        out
    }

    /// Choose a hall uniformly at random among the available halls that the
    /// candidate has not served in; `None` when no such hall is left.
    pub fn assign_hall(served_halls: &[Hall], available: Vec<Hall>) -> (r: Option<Hall>)
        ensures
            r is None <==> available@.filter(|h: Hall| !served_halls@.contains(h)).len() == 0,
            r matches Some(h) ==> available@.contains(h) && !served_halls@.contains(h),
    {
        let open = Self::get_available_halls(served_halls, available);
        if open.len() == 0 {
            None
        } else {
            let i = crate::random::pick_index(open.len());
            let h = open[i];
            Some(h)
        }
    }
}

/// Whether `h` occurs in the slice.
pub fn contains_hall(halls: &[Hall], h: Hall) -> (r: bool)
    ensures
        r == halls@.contains(h),
{
    let n = halls.len();
    for i in 0..n
        invariant
            n == halls@.len(),
            forall|j: int| 0 <= j < i ==> halls@[j] != h,
    {
        if halls[i] == h {
            return true;
        }
    }
    false
}

/// The gender tag carried by a profile's free-form field: `"male"` or
/// `"female"` up to ASCII case; anything else counts as untagged.
pub open spec fn spec_gender_of(s: Seq<char>) -> Option<Gender> {
    if crate::text::spec_lower(s) == "male"@ {
        Option::Some(Gender::Male)
    } else if crate::text::spec_lower(s) == "female"@ {
        Option::Some(Gender::Female)
    } else {
        Option::None
    }
}

/// The gender tag of an optional free-form field.
pub open spec fn spec_gender_of_opt(s: Option<String>) -> Option<Gender> {
    match s {
        Option::None => Option::None,
        Option::Some(t) => spec_gender_of(t@),
    }
}

/// Read a profile's free-form gender field.
pub fn parse_gender(s: &Option<String>) -> (r: Option<Gender>)
    ensures
        r == spec_gender_of_opt(*s),
{
    match s {
        Option::None => Option::None,
        Option::Some(t) => {
            if crate::text::eq_lowercased(t.as_str(), "male") {
                Option::Some(Gender::Male)
            } else if crate::text::eq_lowercased(t.as_str(), "female") {
                Option::Some(Gender::Female)
            } else {
                Option::None
            }
        },
    }
}

/// The name of a hall, at the specification level.
pub open spec fn spec_hall_name(h: Hall) -> Seq<char> {
    match h {
        Hall::MainHall => "MainHall"@,
        Hall::HallOne => "HallOne"@,
        Hall::Gallery => "Gallery"@,
        Hall::Basement => "Basement"@,
        Hall::Outside => "Outside"@,
    }
}

} // verus!
