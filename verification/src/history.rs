//! Committed assignments and the bounded history lookback over them.

use vstd::prelude::*;

use crate::clock;
use crate::halls::Hall;
use crate::ids;

verus! {

/// A committed roster-to-person mapping: who sits in which hall under
/// which roster, with the roster's year tag copied in for fast lookback.
#[derive(Debug, Clone, Copy)]
pub struct Assignment {
    pub id: u128,
    pub user_id: u128,
    pub roster_id: u128,
    pub hall: Hall,
    pub year: i32,
    /// Seconds since the epoch at creation.
    pub created_at: i64,
}

impl Assignment {
    /// A fresh assignment record, stamped with a new identity and the
    /// present creation instant.
    pub fn new(user_id: u128, roster_id: u128, hall: Hall, year: i32) -> (r: Assignment)
        ensures
            r.user_id == user_id,
            r.roster_id == roster_id,
            r.hall == hall,
            r.year == year,
    {
        Assignment {
            id: ids::fresh_id(),
            user_id,
            roster_id,
            hall,
            year,
            created_at: clock::current_timestamp(),
        }
    }
}

/// The halls of the first `limit` assignments, in scan order, that belong
/// to `user_id` and share the year tag: the candidate's exclusion history.
pub open spec fn spec_recent_halls(
    assignments: Seq<Assignment>,
    user_id: u128,
    year: i32,
    limit: int,
) -> Seq<Hall>
    decreases assignments.len(),
{
    if limit <= 0 || assignments.len() == 0 {
        seq![]
    } else {
        let rest = assignments.subrange(1, assignments.len() as int);
        if assignments[0].user_id == user_id && assignments[0].year == year {
            seq![assignments[0].hall] + spec_recent_halls(rest, user_id, year, limit - 1)
        } else {
            spec_recent_halls(rest, user_id, year, limit)
        }
    }
}

/// Every hall in the lookback comes from a matching assignment.
pub proof fn lemma_recent_halls_from_assignments(
    assignments: Seq<Assignment>,
    user_id: u128,
    year: i32,
    limit: int,
    h: Hall,
)
    requires
        spec_recent_halls(assignments, user_id, year, limit).contains(h),
    ensures
        exists|k: int|
            0 <= k < assignments.len() && assignments[k].user_id == user_id
                && assignments[k].year == year && assignments[k].hall == h,
    decreases assignments.len(),
{
    let rest = assignments.subrange(1, assignments.len() as int);
    if limit <= 0 || assignments.len() == 0 {
    } else if assignments[0].user_id == user_id && assignments[0].year == year {
        if assignments[0].hall == h {
            assert(assignments[0].user_id == user_id && assignments[0].hall == h);
        } else {
            let r = spec_recent_halls(assignments, user_id, year, limit);
            let i = choose|i: int| 0 <= i < r.len() && r[i] == h;
            assert(spec_recent_halls(rest, user_id, year, limit - 1)[i - 1] == h);
            lemma_recent_halls_from_assignments(rest, user_id, year, limit - 1, h);
            let k = choose|k: int|
                0 <= k < rest.len() && rest[k].user_id == user_id && rest[k].year == year
                    && rest[k].hall == h;
            assert(assignments[k + 1].hall == h);
        }
    } else {
        lemma_recent_halls_from_assignments(rest, user_id, year, limit, h);
        let k = choose|k: int|
            0 <= k < rest.len() && rest[k].user_id == user_id && rest[k].year == year && rest[k].hall
                == h;
        assert(assignments[k + 1].hall == h);
    }
}

/// The most recent prior halls for one candidate within one year tag,
/// bounded by `limit`. A pure read: a candidate with no history yields an
/// empty list, never an error.
pub fn recent_halls(assignments: &Vec<Assignment>, user_id: u128, year: i32, limit: usize) -> (r:
    Vec<Hall>)
    ensures
        r@ == spec_recent_halls(assignments@, user_id, year, limit as int),
        r@.len() <= limit,
{
    let n = assignments.len();
    let mut out: Vec<Hall> = Vec::new();
    let mut i: usize = 0;
    proof {
        assert(assignments@.skip(0) =~= assignments@);
        assert(Seq::<Hall>::empty() + spec_recent_halls(assignments@, user_id, year, limit as int)
            =~= spec_recent_halls(assignments@, user_id, year, limit as int));
    }
    while i < n && out.len() < limit
        invariant
            n == assignments@.len(),
            i <= n,
            out@.len() <= limit,
            spec_recent_halls(assignments@, user_id, year, limit as int) == out@
                + spec_recent_halls(
                assignments@.skip(i as int),
                user_id,
                year,
                limit - out@.len(),
            ),
        decreases n - i,
    {
        let a = &assignments[i];
        proof {
            let tail = assignments@.skip(i as int);
            assert(tail[0] == assignments@[i as int]);
            assert(tail.subrange(1, tail.len() as int) =~= assignments@.skip(i + 1));
        }
        if a.user_id == user_id && a.year == year {
            out.push(a.hall);
        }
        i += 1;
    }
    proof {
        if i < n {
            assert(out@.len() == limit);
            assert(spec_recent_halls(assignments@.skip(i as int), user_id, year, 0) =~= seq![]);
        } else {
            assert(assignments@.skip(i as int).len() == 0);
        }
        assert(out@ + seq![] =~= out@);
    }
    out
}

} // verus!
