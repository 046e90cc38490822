//! The roster activation engine: computes a full reassignment of the
//! active people to halls and commits it as one atomic replacement.

use vstd::prelude::*;

use crate::dto::AddUserToRosterRequest;
use crate::errors::ModuleError;
use crate::halls::{parse_gender, Gender, Hall, SelectionTier};
use crate::heuristic::select_hall;
use crate::history::{recent_halls, spec_recent_halls, Assignment};
use crate::roster::{initial_capacity, RosterDefinition};
use crate::users::User;

verus! {

/// How many prior assignments per candidate the lookback consults.
pub const HISTORY_LOOKBACK: usize = 5;

/// One computed (candidate, hall) pair, with the fallback tier that
/// produced it, for observability.
#[derive(Debug, Clone, Copy, PartialEq, Eq, Structural)]
pub struct Placement {
    pub user_id: u128,
    pub hall: Hall,
    pub tier: SelectionTier,
}

/// The identities of the active users, in scan order: the eligible pool.
pub open spec fn spec_active_ids(users: Seq<User>) -> Seq<u128>
    decreases users.len(),
{
    if users.len() == 0 {
        seq![]
    } else {
        spec_active_ids(users.drop_last()) + if users.last().is_active {
            seq![users.last().id]
        } else {
            seq![]
        }
    }
}

/// How many placements assign hall `h`.
pub open spec fn spec_hall_count(ps: Seq<Placement>, h: Hall) -> int
    decreases ps.len(),
{
    if ps.len() == 0 {
        0
    } else {
        spec_hall_count(ps.drop_last(), h) + if ps.last().hall == h {
            1int
        } else {
            0int
        }
    }
}

/// No placement into `h` had to fall back to the capacity-ignoring tier.
pub open spec fn spec_no_fallback_to(ps: Seq<Placement>, h: Hall) -> bool {
    forall|k: int|
        0 <= k < ps.len() && (#[trigger] ps[k]).hall == h ==> ps[k].tier
            != SelectionTier::Unconstrained
}

/// A sequence of identifiers without repetition.
pub open spec fn spec_distinct(s: Seq<u128>) -> bool {
    forall|i: int, j: int| 0 <= i < j < s.len() ==> s[i] != s[j]
}

/// `x` floored at zero.
pub open spec fn spec_max0(x: int) -> int {
    if x > 0 {
        x
    } else {
        0
    }
}

/// Every identity in the eligible pool belongs to an active user.
pub proof fn lemma_active_ids_from_users(users: Seq<User>, x: u128)
    requires
        spec_active_ids(users).contains(x),
    ensures
        exists|j: int| 0 <= j < users.len() && users[j].id == x && users[j].is_active,
    decreases users.len(),
{
    if users.len() > 0 {
        let prefix = users.drop_last();
        if users.last().is_active && users.last().id == x {
            assert(users[users.len() - 1].id == x && users[users.len() - 1].is_active);
        } else {
            let s = spec_active_ids(users);
            let p = spec_active_ids(prefix);
            let i = choose|i: int| 0 <= i < s.len() && s[i] == x;
            assert(p[i] == x);
            lemma_active_ids_from_users(prefix, x);
            let j = choose|j: int| 0 <= j < prefix.len() && prefix[j].id == x && prefix[j].is_active;
            assert(users[j].id == x && users[j].is_active);
        }
    }
}

/// When user identities are unique, so is the eligible pool.
pub proof fn lemma_active_ids_distinct(users: Seq<User>)
    requires
        forall|i: int, j: int| 0 <= i < j < users.len() ==> users[i].id != users[j].id,
    ensures
        spec_distinct(spec_active_ids(users)),
    decreases users.len(),
{
    if users.len() > 0 {
        let prefix = users.drop_last();
        lemma_active_ids_distinct(prefix);
        let s = spec_active_ids(users);
        let p = spec_active_ids(prefix);
        if users.last().is_active {
            assert forall|i: int, j: int| 0 <= i < j < s.len() implies s[i] != s[j] by {
                if j < p.len() {
                    assert(s[i] == p[i] && s[j] == p[j]);
                } else {
                    assert(s[j] == users.last().id);
                    assert(s[i] == p[i]);
                    if s[i] == users.last().id {
                        lemma_active_ids_from_users(prefix, p[i]);
                        let k = choose|k: int|
                            0 <= k < prefix.len() && prefix[k].id == p[i] && prefix[k].is_active;
                        assert(users[k].id == users[users.len() - 1].id);
                        assert(false);
                    }
                }
            }
        } else {
            assert(s =~= p);
        }
    }
}

/// Compute the full reassignment for one activation run: every active
/// user receives exactly one hall, chosen by the tiered heuristic against
/// the live capacity model seeded from the roster's quotas.
///
/// The returned placements line up one-to-one, in order, with the active
/// users. A placement whose tier avoided history is never in that
/// candidate's lookback; and any hall that never needed the last-resort
/// tier holds no more placements than its quota.
pub fn compute_placements(
    roster: &RosterDefinition,
    users: &Vec<User>,
    assignments: &Vec<Assignment>,
) -> (r: Vec<Placement>)
    ensures
        r@.map_values(|p: Placement| p.user_id) == spec_active_ids(users@),
        forall|k: int|
            0 <= k < r@.len() && ((#[trigger] r@[k]).tier == SelectionTier::GenderMatched
                || r@[k].tier == SelectionTier::HistoryAvoided) ==> !spec_recent_halls(
                assignments@,
                r@[k].user_id,
                roster.year,
                HISTORY_LOOKBACK as int,
            ).contains(r@[k].hall),
        forall|h: Hall|
            spec_no_fallback_to(r@, h) ==> spec_hall_count(r@, h) <= spec_max0(
                roster.spec_quota(h).total as int,
            ),
{
    let mut cap = initial_capacity(roster);
    let ghost cap0 = cap;
    let mut out: Vec<Placement> = Vec::new();
    let n = users.len();
    for i in 0..n
        invariant
            n == users@.len(),
            forall|h: Hall| cap0.spec_slots(h) == roster.spec_quota(h),
            out@.map_values(|p: Placement| p.user_id) == spec_active_ids(
                users@.subrange(0, i as int),
            ),
            forall|k: int|
                0 <= k < out@.len() && ((#[trigger] out@[k]).tier == SelectionTier::GenderMatched
                    || out@[k].tier == SelectionTier::HistoryAvoided) ==> !spec_recent_halls(
                    assignments@,
                    out@[k].user_id,
                    roster.year,
                    HISTORY_LOOKBACK as int,
                ).contains(out@[k].hall),
            forall|h: Hall|
                spec_no_fallback_to(out@, h) ==> spec_hall_count(out@, h) + cap.spec_remaining(h)
                    == cap0.spec_remaining(h),
            forall|h: Hall|
                cap0.spec_remaining(h) >= 0 ==> #[trigger] cap.spec_remaining(h) >= 0,
            forall|h: Hall|
                cap0.spec_remaining(h) < 0 ==> #[trigger] cap.spec_remaining(h)
                    == cap0.spec_remaining(h),
    {
        proof {
            assert(users@.subrange(0, i + 1).drop_last() =~= users@.subrange(0, i as int));
            assert(users@.subrange(0, i + 1).last() == users@[i as int]);
        }
        let u = &users[i];
        if u.is_active {
            let history = recent_halls(assignments, u.id, roster.year, HISTORY_LOOKBACK);
            let g: Option<Gender> = if roster.gendered {
                parse_gender(&u.gender)
            } else {
                Option::None
            };
            let picked = select_hall(&cap, &history, g);
            let ghost cap_before = cap;
            cap.consume(picked.0, g);
            let ghost prev = out@;
            out.push(Placement { user_id: u.id, hall: picked.0, tier: picked.1 });
            proof {
                let p = Placement { user_id: u.id, hall: picked.0, tier: picked.1 };
                assert(out@.drop_last() =~= prev);
                assert(out@.map_values(|p: Placement| p.user_id) =~= prev.map_values(
                    |p: Placement| p.user_id,
                ).push(u.id));
                assert(spec_active_ids(users@.subrange(0, i + 1)) =~= spec_active_ids(
                    users@.subrange(0, i as int),
                ).push(u.id));
                assert forall|h: Hall| spec_no_fallback_to(out@, h) implies spec_hall_count(out@, h)
                    + cap.spec_remaining(h) == cap0.spec_remaining(h) by {
                    assert(spec_no_fallback_to(prev, h)) by {
                        assert(forall|k: int|
                            0 <= k < prev.len() ==> prev[k] == #[trigger] out@[k]);
                    }
                    if picked.0 == h {
                        assert(out@[out@.len() - 1] == p);
                        assert(p.tier != SelectionTier::Unconstrained);
                        assert(cap_before.spec_open(h));
                        assert(cap.spec_remaining(h) == cap_before.spec_remaining(h) - 1);
                    } else {
                        assert(cap.spec_slots(h) == cap_before.spec_slots(h));
                    }
                }
                assert(cap.spec_slots(picked.0) == crate::capacity::spec_consume_slot(
                    cap_before.spec_slots(picked.0),
                    g,
                ));
                assert forall|h: Hall|
                    cap0.spec_remaining(h) >= 0 implies #[trigger] cap.spec_remaining(h) >= 0 by {
                    assert(cap_before.spec_remaining(h) >= 0);
                    if picked.0 == h {
                        assert(cap.spec_remaining(h) == crate::capacity::spec_dec_sat(
                            cap_before.spec_slots(h).total,
                        ) as int);
                    } else {
                        assert(cap.spec_slots(h) == cap_before.spec_slots(h));
                    }
                }
                assert forall|h: Hall|
                    cap0.spec_remaining(h) < 0 implies #[trigger] cap.spec_remaining(h)
                    == cap0.spec_remaining(h) by {
                    assert(cap_before.spec_remaining(h) == cap0.spec_remaining(h));
                    if picked.0 == h {
                        assert(cap.spec_remaining(h) == crate::capacity::spec_dec_sat(
                            cap_before.spec_slots(h).total,
                        ) as int);
                    } else {
                        assert(cap.spec_slots(h) == cap_before.spec_slots(h));
                    }
                }
            }
        } else {
            proof {
                assert(spec_active_ids(users@.subrange(0, i + 1)) =~= spec_active_ids(
                    users@.subrange(0, i as int),
                ));
            }
        }
    }
    proof {
        assert(users@.subrange(0, n as int) =~= users@);
        assert forall|h: Hall|
            spec_no_fallback_to(out@, h) implies spec_hall_count(out@, h) <= spec_max0(
            roster.spec_quota(h).total as int,
        ) by {
            if cap0.spec_remaining(h) >= 0 {
                assert(spec_hall_count(out@, h) == cap0.spec_remaining(h) - cap.spec_remaining(h));
            } else {
                assert(spec_hall_count(out@, h) == 0);
            }
        }
    }
    out
}

/// `r` with its active flag set to `b` and all else untouched.
pub open spec fn spec_with_active(r: RosterDefinition, b: bool) -> RosterDefinition {
    RosterDefinition { is_active: b, ..r }
}

/// `u` with its current hall set to `h` and all else untouched.
pub open spec fn spec_with_hall(u: User, h: Hall) -> User {
    User { current_roster_hall: Option::Some(h), ..u }
}

/// Whether a stored assignment row realises a computed placement.
pub open spec fn spec_assignment_matches(
    a: Assignment,
    p: Placement,
    roster_id: u128,
    year: i32,
) -> bool {
    a.user_id == p.user_id && a.hall == p.hall && a.roster_id == roster_id && a.year == year
}

/// The stored rows belonging to rosters other than `roster_id`.
pub open spec fn spec_other_assignments(assignments: Seq<Assignment>, roster_id: u128) -> Seq<
    Assignment,
> {
    assignments.filter(|a: Assignment| a.roster_id != roster_id)
}

/// The stored rows belonging to `roster_id`.
pub open spec fn spec_assignments_for(assignments: Seq<Assignment>, roster_id: u128) -> Seq<
    Assignment,
> {
    assignments.filter(|a: Assignment| a.roster_id == roster_id)
}

/// The first placement for `user_id`, if any.
pub open spec fn spec_placement_for(ps: Seq<Placement>, user_id: u128) -> Option<Placement>
    decreases ps.len(),
{
    if ps.len() == 0 {
        Option::None
    } else if ps[0].user_id == user_id {
        Option::Some(ps[0])
    } else {
        spec_placement_for(ps.subrange(1, ps.len() as int), user_id)
    }
}

/// The index of the roster with identity `id`; `None` if it is unknown.
pub(crate) fn find_roster_index(rosters: &Vec<RosterDefinition>, id: u128) -> (r: Option<usize>)
    ensures
        r is None <==> (forall|i: int| 0 <= i < rosters@.len() ==> (#[trigger] rosters@[i]).id
            != id),
        r matches Some(k) ==> k < rosters@.len() && rosters@[k as int].id == id,
{
    let n = rosters.len();
    for i in 0..n
        invariant
            n == rosters@.len(),
            forall|j: int| 0 <= j < i ==> (#[trigger] rosters@[j]).id != id,
    {
        if rosters[i].id == id {
            return Option::Some(i);
        }
    }
    Option::None
}

/// Drop every stored row of `roster_id`, keeping all others in order.
fn remove_roster_assignments(assignments: &mut Vec<Assignment>, roster_id: u128)
    ensures
        final(assignments)@ == spec_other_assignments(old(assignments)@, roster_id),
{
    let n = assignments.len();
    let mut kept: Vec<Assignment> = Vec::new();
    for i in 0..n
        invariant
            n == assignments@.len(),
            kept@ =~= assignments@.subrange(0, i as int).filter(
                |a: Assignment| a.roster_id != roster_id,
            ),
    {
        proof {
            assert(assignments@.subrange(0, i + 1).drop_last() =~= assignments@.subrange(
                0,
                i as int,
            ));
            assert(assignments@.subrange(0, i + 1).last() == assignments@[i as int]);
        }
        if assignments[i].roster_id != roster_id {
            kept.push(assignments[i]);
        }
        proof {
            reveal(Seq::filter);
        }
    }
    proof {
        assert(assignments@.subrange(0, n as int) =~= assignments@);
    }
    *assignments = kept;
}

/// Append one fresh stored row per computed placement, in order.
fn append_placements(
    assignments: &mut Vec<Assignment>,
    roster_id: u128,
    year: i32,
    placements: &Vec<Placement>,
)
    ensures
        final(assignments)@.len() == old(assignments)@.len() + placements@.len(),
        forall|k: int|
            0 <= k < old(assignments)@.len() ==> final(assignments)@[k] == old(assignments)@[k],
        forall|k: int|
            0 <= k < placements@.len() ==> spec_assignment_matches(
                #[trigger] final(assignments)@[old(assignments)@.len() + k],
                placements@[k],
                roster_id,
                year,
            ),
{
    let m = placements.len();
    let ghost base = assignments@;
    for k in 0..m
        invariant
            m == placements@.len(),
            assignments@.len() == base.len() + k,
            forall|j: int| 0 <= j < base.len() ==> assignments@[j] == base[j],
            forall|j: int|
                0 <= j < k ==> spec_assignment_matches(
                    #[trigger] assignments@[base.len() + j],
                    placements@[j],
                    roster_id,
                    year,
                ),
    {
        let p = placements[k];
        assignments.push(Assignment::new(p.user_id, roster_id, p.hall, year));
    }
}

/// Flip every roster's active flag so that exactly the roster with
/// identity `roster_id` (if present) is active.
fn set_only_active(rosters: &mut Vec<RosterDefinition>, roster_id: u128)
    ensures
        final(rosters)@.len() == old(rosters)@.len(),
        forall|j: int|
            0 <= j < old(rosters)@.len() ==> final(rosters)@[j] == spec_with_active(
                old(rosters)@[j],
                old(rosters)@[j].id == roster_id,
            ),
{
    let n = rosters.len();
    for j in 0..n
        invariant
            n == rosters@.len(),
            forall|i: int|
                j <= i < n ==> #[trigger] rosters@[i] == old(rosters)@[i],
            forall|i: int|
                0 <= i < j ==> #[trigger] rosters@[i] == spec_with_active(
                    old(rosters)@[i],
                    old(rosters)@[i].id == roster_id,
                ),
    {
        let active = rosters[j].id == roster_id;
        rosters[j].is_active = active;
    }
}

/// The first placement for `user_id`, if any.
fn find_placement(placements: &Vec<Placement>, user_id: u128) -> (r: Option<Placement>)
    ensures
        r == spec_placement_for(placements@, user_id),
{
    let n = placements.len();
    let mut i: usize = 0;
    proof {
        assert(placements@.skip(0) =~= placements@);
    }
    while i < n
        invariant
            n == placements@.len(),
            i <= n,
            spec_placement_for(placements@, user_id) == spec_placement_for(
                placements@.skip(i as int),
                user_id,
            ),
        decreases n - i,
    {
        proof {
            let tail = placements@.skip(i as int);
            assert(tail[0] == placements@[i as int]);
            assert(tail.subrange(1, tail.len() as int) =~= placements@.skip(i + 1));
        }
        if placements[i].user_id == user_id {
            return Option::Some(placements[i]);
        }
        i += 1;
    }
    Option::None
}

/// A filter keeps nothing when nothing qualifies.
proof fn lemma_filter_none<A>(s: Seq<A>, pred: spec_fn(A) -> bool)
    requires
        forall|i: int| 0 <= i < s.len() ==> !pred(#[trigger] s[i]),
    ensures
        s.filter(pred) =~= Seq::<A>::empty(),
    decreases s.len(),
{
    reveal(Seq::filter);
    if s.len() > 0 {
        lemma_filter_none(s.drop_last(), pred);
    }
}

/// A filter keeps everything when everything qualifies.
proof fn lemma_filter_all<A>(s: Seq<A>, pred: spec_fn(A) -> bool)
    requires
        forall|i: int| 0 <= i < s.len() ==> pred(#[trigger] s[i]),
    ensures
        s.filter(pred) =~= s,
    decreases s.len(),
{
    reveal(Seq::filter);
    if s.len() > 0 {
        lemma_filter_all(s.drop_last(), pred);
    }
}

/// After any successful activation exactly one roster definition is
/// active, and it is the one just activated: the premises are exactly
/// what a successful `activate_roster` ensures about the stored rosters.
pub proof fn lemma_single_active_roster(
    before: RosterSystem,
    after: RosterSystem,
    roster_id: u128,
)
    requires
        before.wf(),
        before.spec_has_roster(roster_id),
        after.rosters@.len() == before.rosters@.len(),
        forall|j: int|
            0 <= j < before.rosters@.len() ==> after.rosters@[j] == spec_with_active(
                before.rosters@[j],
                before.rosters@[j].id == roster_id,
            ),
    ensures
        0 <= before.spec_roster_index(roster_id) < after.rosters@.len(),
        after.rosters@[before.spec_roster_index(roster_id)].is_active,
        after.rosters@[before.spec_roster_index(roster_id)].id == roster_id,
        forall|j: int|
            0 <= j < after.rosters@.len() && j != before.spec_roster_index(roster_id)
                ==> !(#[trigger] after.rosters@[j]).is_active,
{
    let idx = before.spec_roster_index(roster_id);
    assert(0 <= idx < before.rosters@.len() && before.rosters@[idx].id == roster_id);
    assert forall|j: int|
        0 <= j < after.rosters@.len() && j != idx implies !(#[trigger] after.rosters@[j]).is_active by {
        assert(after.rosters@[j] == spec_with_active(
            before.rosters@[j],
            before.rosters@[j].id == roster_id,
        ));
        if before.rosters@[j].id == roster_id {
            if j < idx {
                assert(before.rosters@[j].id != before.rosters@[idx].id);
            } else {
                assert(before.rosters@[idx].id != before.rosters@[j].id);
            }
        }
    }
}

/// Re-activation fully replaces a roster's rows. After a successful
/// activation the rows of that roster are exactly one per eligible user:
/// their count equals the pool's size — so a second run over the same
/// pool persists the same number of rows — with no duplicate user and no
/// row left from before. The premises are exactly what a successful
/// `activate_roster` ensures about the stored assignments.
pub proof fn lemma_idempotent_reactivation(
    before: Seq<Assignment>,
    after: Seq<Assignment>,
    ps: Seq<Placement>,
    users: Seq<User>,
    roster_id: u128,
    year: i32,
)
    requires
        ps.map_values(|p: Placement| p.user_id) == spec_active_ids(users),
        forall|i: int, j: int| 0 <= i < j < users.len() ==> users[i].id != users[j].id,
        after.len() == spec_other_assignments(before, roster_id).len() + ps.len(),
        after.subrange(0, spec_other_assignments(before, roster_id).len() as int)
            == spec_other_assignments(before, roster_id),
        forall|k: int|
            0 <= k < ps.len() ==> spec_assignment_matches(
                #[trigger] after[spec_other_assignments(before, roster_id).len() + k],
                ps[k],
                roster_id,
                year,
            ),
    ensures
        spec_assignments_for(after, roster_id).len() == spec_active_ids(users).len(),
        forall|i: int, j: int|
            0 <= i < j < spec_assignments_for(after, roster_id).len()
                ==> spec_assignments_for(after, roster_id)[i].user_id != spec_assignments_for(
                after,
                roster_id,
            )[j].user_id,
        forall|i: int|
            0 <= i < spec_assignments_for(after, roster_id).len() ==> spec_active_ids(
                users,
            ).contains(spec_assignments_for(after, roster_id)[i].user_id),
{
    let keep = |a: Assignment| a.roster_id == roster_id;
    let other = spec_other_assignments(before, roster_id);
    let suffix = after.subrange(other.len() as int, after.len() as int);
    assert(after =~= other + suffix);
    Seq::<Assignment>::filter_distributes_over_add(other, suffix, keep);
    assert forall|i: int| 0 <= i < other.len() implies !keep(#[trigger] other[i]) by {
        before.lemma_filter_pred(|a: Assignment| a.roster_id != roster_id, i);
    }
    lemma_filter_none(other, keep);
    assert forall|i: int| 0 <= i < suffix.len() implies keep(#[trigger] suffix[i]) by {
        assert(suffix[i] == after[other.len() + i]);
        assert(spec_assignment_matches(after[other.len() + i], ps[i], roster_id, year));
    }
    lemma_filter_all(suffix, keep);
    assert(spec_assignments_for(after, roster_id) =~= suffix);
    let pool = spec_active_ids(users);
    assert(ps.len() == pool.len());
    lemma_active_ids_distinct(users);
    assert forall|i: int, j: int|
        0 <= i < j < suffix.len() implies suffix[i].user_id != suffix[j].user_id by {
        assert(spec_assignment_matches(after[other.len() + i], ps[i], roster_id, year));
        assert(spec_assignment_matches(after[other.len() + j], ps[j], roster_id, year));
        assert(ps[i].user_id == ps.map_values(|p: Placement| p.user_id)[i]);
        assert(ps[j].user_id == ps.map_values(|p: Placement| p.user_id)[j]);
    }
    assert forall|i: int| 0 <= i < suffix.len() implies pool.contains(suffix[i].user_id) by {
        assert(spec_assignment_matches(after[other.len() + i], ps[i], roster_id, year));
        assert(ps[i].user_id == ps.map_values(|p: Placement| p.user_id)[i]);
        assert(pool[i] == suffix[i].user_id);
    }
}

/// The whole state the engine acts on: roster definitions, people
/// profiles, and committed assignment rows. The surrounding service keeps
/// this state in storage; the engine's operations are the atomic units it
/// runs inside one storage transaction.
#[derive(Debug, Clone)]
pub struct RosterSystem {
    pub rosters: Vec<RosterDefinition>,
    pub users: Vec<User>,
    pub assignments: Vec<Assignment>,
}

impl RosterSystem {
    /// Well-formed state: roster and user identities are unique.
    pub open spec fn wf(self) -> bool {
        &&& forall|i: int, j: int|
            0 <= i < j < self.rosters@.len() ==> self.rosters@[i].id != self.rosters@[j].id
        &&& forall|i: int, j: int|
            0 <= i < j < self.users@.len() ==> self.users@[i].id != self.users@[j].id
    }

    /// Whether a roster with identity `id` is stored.
    pub open spec fn spec_has_roster(self, id: u128) -> bool {
        exists|i: int| 0 <= i < self.rosters@.len() && (#[trigger] self.rosters@[i]).id == id
    }

    /// The index of the roster with identity `id`.
    pub open spec fn spec_roster_index(self, id: u128) -> int {
        choose|i: int| 0 <= i < self.rosters@.len() && (#[trigger] self.rosters@[i]).id == id
    }

    /// The stored roster with identity `id`.
    pub open spec fn spec_roster(self, id: u128) -> RosterDefinition {
        self.rosters@[self.spec_roster_index(id)]
    }

    /// An empty store.
    pub fn new() -> (r: RosterSystem)
        ensures
            r.rosters@ == Seq::<RosterDefinition>::empty(),
            r.users@ == Seq::<User>::empty(),
            r.assignments@ == Seq::<Assignment>::empty(),
            r.wf(),
    {
        RosterSystem { rosters: Vec::new(), users: Vec::new(), assignments: Vec::new() }
    }

    /// Activate the roster with identity `roster_id` as of the civil date
    /// `today`: validate the request, compute a full reassignment of the
    /// active users, and commit it as one atomic replacement — prior rows
    /// of this roster deleted, the fresh rows inserted, every other
    /// roster deactivated, this one activated, and each placed user's
    /// profile stamped with their hall.
    ///
    /// Validation rejects, leaving the store untouched: an unknown
    /// roster; a roster already active; a window already over; a window
    /// not yet begun; a roster configured with no seat in any hall. On
    /// every admissible request the activation succeeds and returns the
    /// computed placements.
    pub fn activate_roster(&mut self, roster_id: u128, today: i32) -> (r: Result<
        Vec<Placement>,
        ModuleError,
    >)
        requires
            old(self).wf(),
        ensures
            final(self).wf(),
            r is Err ==> *final(self) == *old(self),
            !old(self).spec_has_roster(roster_id) ==> (r matches Err(
                ModuleError::ResourceNotFound(m),
            ) && m@ == "Roster not found"@),
            old(self).spec_has_roster(roster_id) && old(self).spec_roster(roster_id).is_active ==> (
            r matches Err(ModuleError::Error(m)) && m@ == "Roster is already active"@),
            old(self).spec_has_roster(roster_id) && !old(self).spec_roster(roster_id).is_active
                && old(self).spec_roster(roster_id).end_date < today ==> (r matches Err(
                ModuleError::Error(m),
            ) && m@ == "Roster end date is in the past"@),
            old(self).spec_has_roster(roster_id) && !old(self).spec_roster(roster_id).is_active
                && old(self).spec_roster(roster_id).end_date >= today && old(self).spec_roster(
                roster_id,
            ).start_date > today ==> (r matches Err(ModuleError::Error(m)) && m@
                == "Roster start date is in the future"@),
            old(self).spec_has_roster(roster_id) && !old(self).spec_roster(roster_id).is_active
                && old(self).spec_roster(roster_id).spec_window_contains(today) && old(
                self,
            ).spec_roster(roster_id).spec_total_capacity() == 0 ==> (r matches Err(
                ModuleError::Error(m),
            ) && m@ == "Roster has no capacity configured"@),
            old(self).spec_has_roster(roster_id) && !old(self).spec_roster(roster_id).is_active
                && old(self).spec_roster(roster_id).spec_window_contains(today) && old(
                self,
            ).spec_roster(roster_id).spec_total_capacity() > 0 ==> r is Ok,
            r matches Ok(ps) ==> {
                &&& ps@.map_values(|p: Placement| p.user_id) == spec_active_ids(old(self).users@)
                &&& forall|k: int|
                    0 <= k < ps@.len() && ((#[trigger] ps@[k]).tier == SelectionTier::GenderMatched
                        || ps@[k].tier == SelectionTier::HistoryAvoided) ==> !spec_recent_halls(
                        old(self).assignments@,
                        ps@[k].user_id,
                        old(self).spec_roster(roster_id).year,
                        HISTORY_LOOKBACK as int,
                    ).contains(ps@[k].hall)
                &&& forall|h: Hall|
                    spec_no_fallback_to(ps@, h) ==> spec_hall_count(ps@, h) <= spec_max0(
                        old(self).spec_roster(roster_id).spec_quota(h).total as int,
                    )
                &&& final(self).rosters@.len() == old(self).rosters@.len()
                &&& (forall|j: int|
                    0 <= j < old(self).rosters@.len() ==> final(self).rosters@[j]
                        == spec_with_active(
                        old(self).rosters@[j],
                        old(self).rosters@[j].id == roster_id,
                    ))
                &&& final(self).assignments@.len() == spec_other_assignments(
                    old(self).assignments@,
                    roster_id,
                ).len() + ps@.len()
                &&& final(self).assignments@.subrange(
                    0,
                    spec_other_assignments(old(self).assignments@, roster_id).len() as int,
                ) == spec_other_assignments(old(self).assignments@, roster_id)
                &&& (forall|k: int|
                    0 <= k < ps@.len() ==> spec_assignment_matches(
                        #[trigger] final(self).assignments@[spec_other_assignments(
                            old(self).assignments@,
                            roster_id,
                        ).len() + k],
                        ps@[k],
                        roster_id,
                        old(self).spec_roster(roster_id).year,
                    ))
                &&& final(self).users@.len() == old(self).users@.len()
                &&& (forall|j: int|
                    0 <= j < old(self).users@.len() ==> final(self).users@[j] == (
                    match spec_placement_for(ps@, old(self).users@[j].id) {
                        Option::Some(p) => spec_with_hall(old(self).users@[j], p.hall),
                        Option::None => old(self).users@[j],
                    }))
            },
    {
        let found = find_roster_index(&self.rosters, roster_id);
        let idx = match found {
            Option::None => {
                return Result::Err(
                    ModuleError::ResourceNotFound(String::from_str("Roster not found")),
                );
            },
            Option::Some(k) => k,
        };
        proof {
            assert(self.spec_has_roster(roster_id));
            let c = self.spec_roster_index(roster_id);
            assert(self.rosters@[c].id == roster_id);
            assert(c == idx as int);
        }
        if self.rosters[idx].is_active {
            return Result::Err(ModuleError::Error(String::from_str("Roster is already active")));
        }
        if self.rosters[idx].end_date < today {
            return Result::Err(
                ModuleError::Error(String::from_str("Roster end date is in the past")),
            );
        }
        if self.rosters[idx].start_date > today {
            return Result::Err(
                ModuleError::Error(String::from_str("Roster start date is in the future")),
            );
        }
        if !self.rosters[idx].has_capacity() {
            return Result::Err(
                ModuleError::Error(String::from_str("Roster has no capacity configured")),
            );
        }
        let year = self.rosters[idx].year;
        let placements = compute_placements(&self.rosters[idx], &self.users, &self.assignments);
        remove_roster_assignments(&mut self.assignments, roster_id);
        append_placements(&mut self.assignments, roster_id, year, &placements);
        set_only_active(&mut self.rosters, roster_id);
        write_back_halls(&mut self.users, &placements);
        proof {
            assert forall|i: int, j: int|
                0 <= i < j < self.rosters@.len() implies self.rosters@[i].id
                != self.rosters@[j].id by {
                assert(self.rosters@[i] == spec_with_active(
                    old(self).rosters@[i],
                    old(self).rosters@[i].id == roster_id,
                ));
                assert(self.rosters@[j] == spec_with_active(
                    old(self).rosters@[j],
                    old(self).rosters@[j].id == roster_id,
                ));
            }
            assert forall|i: int, j: int|
                0 <= i < j < self.users@.len() implies self.users@[i].id != self.users@[j].id by {
                assert(self.users@.len() == old(self).users@.len());
            }
        }
        Result::Ok(placements)
    }

    /// Activate the roster as of the present civil date read from the
    /// system clock. Whatever date the clock reports, the outcome is an
    /// activation valid for that date.
    pub fn activate_roster_now(&mut self, roster_id: u128) -> (r: Result<
        Vec<Placement>,
        ModuleError,
    >)
        requires
            old(self).wf(),
        ensures
            final(self).wf(),
            r is Err ==> *final(self) == *old(self),
            !old(self).spec_has_roster(roster_id) ==> (r matches Err(
                ModuleError::ResourceNotFound(m),
            ) && m@ == "Roster not found"@),
            old(self).spec_has_roster(roster_id) && old(self).spec_roster(roster_id).is_active ==> (
            r matches Err(ModuleError::Error(m)) && m@ == "Roster is already active"@),
            r matches Ok(ps) ==> {
                &&& ps@.map_values(|p: Placement| p.user_id) == spec_active_ids(old(self).users@)
                &&& final(self).rosters@.len() == old(self).rosters@.len()
                &&& (forall|j: int|
                    0 <= j < old(self).rosters@.len() ==> final(self).rosters@[j]
                        == spec_with_active(
                        old(self).rosters@[j],
                        old(self).rosters@[j].id == roster_id,
                    ))
            },
    {
        let today = crate::clock::current_day_number();
        self.activate_roster(roster_id, today)
    }

    /// Write each person's committed hall for an active roster back onto
    /// their profile. Rejects, leaving the store untouched, when the
    /// roster is unknown or not active; otherwise every user whose
    /// profile is stored receives the hall of their last row for this
    /// roster, and users without a row are untouched.
    pub fn share_roster(&mut self, roster_id: u128) -> (r: Result<(), ModuleError>)
        requires
            old(self).wf(),
        ensures
            final(self).wf(),
            r is Err ==> *final(self) == *old(self),
            !old(self).spec_has_roster(roster_id) ==> (r matches Err(
                ModuleError::ResourceNotFound(m),
            ) && m@ == "Roster not found"@),
            old(self).spec_has_roster(roster_id) && !old(self).spec_roster(roster_id).is_active
                ==> (r matches Err(ModuleError::Error(m)) && m@
                == "Roster is not active, cannot share an inactive roster"@),
            old(self).spec_has_roster(roster_id) && old(self).spec_roster(roster_id).is_active
                ==> r is Ok,
            r is Ok ==> {
                &&& final(self).rosters == old(self).rosters
                &&& final(self).assignments == old(self).assignments
                &&& final(self).users@.len() == old(self).users@.len()
                &&& (forall|j: int|
                    0 <= j < old(self).users@.len() ==> final(self).users@[j] == (
                    match spec_shared_hall(
                        old(self).assignments@,
                        roster_id,
                        old(self).users@[j].id,
                    ) {
                        Option::Some(h) => spec_with_hall(old(self).users@[j], h),
                        Option::None => old(self).users@[j],
                    }))
            },
    {
        let found = find_roster_index(&self.rosters, roster_id);
        let idx = match found {
            Option::None => {
                return Result::Err(
                    ModuleError::ResourceNotFound(String::from_str("Roster not found")),
                );
            },
            Option::Some(k) => k,
        };
        proof {
            assert(self.spec_has_roster(roster_id));
            let c = self.spec_roster_index(roster_id);
            assert(self.rosters@[c].id == roster_id);
            assert(c == idx as int);
        }
        if !self.rosters[idx].is_active {
            return Result::Err(
                ModuleError::Error(
                    String::from_str("Roster is not active, cannot share an inactive roster"),
                ),
            );
        }
        let n = self.assignments.len();
        for i in 0..n
            invariant
                n == self.assignments@.len(),
                self.rosters == old(self).rosters,
                self.assignments == old(self).assignments,
                self.users@.len() == old(self).users@.len(),
                forall|i2: int, j2: int|
                    0 <= i2 < j2 < self.users@.len() ==> self.users@[i2].id != self.users@[j2].id,
                forall|j: int|
                    0 <= j < old(self).users@.len() ==> #[trigger] self.users@[j] == (
                    match spec_shared_hall(
                        old(self).assignments@.subrange(0, i as int),
                        roster_id,
                        old(self).users@[j].id,
                    ) {
                        Option::Some(h) => spec_with_hall(old(self).users@[j], h),
                        Option::None => old(self).users@[j],
                    }),
        {
            proof {
                assert(self.assignments@.subrange(0, i + 1).drop_last() =~= self.assignments@
                    .subrange(0, i as int));
                assert(self.assignments@.subrange(0, i + 1).last() == self.assignments@[i as int]);
            }
            let a = self.assignments[i];
            if a.roster_id == roster_id {
                match find_user_index(&self.users, a.user_id) {
                    Option::Some(k) => {
                        proof {
                            assert(self.users@[k as int] == (match spec_shared_hall(
                                old(self).assignments@.subrange(0, i as int),
                                roster_id,
                                old(self).users@[k as int].id,
                            ) {
                                Option::Some(h) => spec_with_hall(old(self).users@[k as int], h),
                                Option::None => old(self).users@[k as int],
                            }));
                            assert(old(self).users@[k as int].id == self.users@[k as int].id);
                        }
                        self.users[k].current_roster_hall = Option::Some(a.hall);
                    },
                    Option::None => {},
                }
            }
        }
        proof {
            assert(old(self).assignments@.subrange(0, n as int) =~= old(self).assignments@);
        }
        Result::Ok(())
    }

    /// Add one person to a roster in a named hall: append a fresh row
    /// carrying the roster's year, and stamp the hall onto the person's
    /// profile if it is stored. Rejects, leaving the store untouched,
    /// when the roster is unknown.
    pub fn add_user_to_roster(&mut self, payload: AddUserToRosterRequest) -> (r: Result<
        crate::dto::Message<()>,
        ModuleError,
    >)
        requires
            old(self).wf(),
        ensures
            final(self).wf(),
            r is Err ==> *final(self) == *old(self),
            !old(self).spec_has_roster(payload.roster_id) ==> (r matches Err(
                ModuleError::ResourceNotFound(m),
            ) && m@ == "Roster not found"@),
            old(self).spec_has_roster(payload.roster_id) ==> r is Ok,
            r matches Ok(msg) ==> {
                &&& msg.message@ == "User added to roster successfully"@
                &&& msg.data is None
                &&& final(self).rosters == old(self).rosters
                &&& final(self).assignments@.len() == old(self).assignments@.len() + 1
                &&& (forall|k: int|
                    0 <= k < old(self).assignments@.len() ==> final(self).assignments@[k] == old(
                        self,
                    ).assignments@[k])
                &&& final(self).assignments@.last().user_id == payload.user_id
                &&& final(self).assignments@.last().roster_id == payload.roster_id
                &&& final(self).assignments@.last().hall == payload.hall
                &&& final(self).assignments@.last().year == old(self).spec_roster(
                    payload.roster_id,
                ).year
                &&& final(self).users@.len() == old(self).users@.len()
                &&& (forall|j: int|
                    0 <= j < old(self).users@.len() ==> final(self).users@[j] == (if old(
                        self,
                    ).users@[j].id == payload.user_id {
                        spec_with_hall(old(self).users@[j], payload.hall)
                    } else {
                        old(self).users@[j]
                    }))
            },
    {
        let found = find_roster_index(&self.rosters, payload.roster_id);
        let idx = match found {
            Option::None => {
                return Result::Err(
                    ModuleError::ResourceNotFound(String::from_str("Roster not found")),
                );
            },
            Option::Some(k) => k,
        };
        proof {
            assert(self.spec_has_roster(payload.roster_id));
            let c = self.spec_roster_index(payload.roster_id);
            assert(self.rosters@[c].id == payload.roster_id);
            assert(c == idx as int);
        }
        let year = self.rosters[idx].year;
        self.assignments.push(
            Assignment::new(payload.user_id, payload.roster_id, payload.hall, year),
        );
        match find_user_index(&self.users, payload.user_id) {
            Option::Some(k) => {
                self.users[k].current_roster_hall = Option::Some(payload.hall);
            },
            Option::None => {},
        }
        Result::Ok(crate::dto::Message::new("User added to roster successfully", Option::None))
    }

    /// Move one person's assignment to another hall: every stored row
    /// with the given row identity takes the hall, and the person's
    /// profile is stamped with it.
    pub fn update_user_hall(&mut self, user_id: u128, user_roster_id: u128, hall: Hall) -> (r:
        Result<crate::dto::Message<()>, ModuleError>)
        requires
            old(self).wf(),
        ensures
            final(self).wf(),
            r matches Ok(msg) ==> msg.message@ == "User hall updated successfully"@ && msg.data
                is None,
            r is Ok,
            final(self).rosters == old(self).rosters,
            final(self).assignments@.len() == old(self).assignments@.len(),
            forall|k: int|
                0 <= k < old(self).assignments@.len() ==> final(self).assignments@[k] == (if old(
                    self,
                ).assignments@[k].id == user_roster_id {
                    (Assignment { hall, ..old(self).assignments@[k] })
                } else {
                    old(self).assignments@[k]
                }),
            final(self).users@.len() == old(self).users@.len(),
            forall|j: int|
                0 <= j < old(self).users@.len() ==> final(self).users@[j] == (if old(
                    self,
                ).users@[j].id == user_id {
                    spec_with_hall(old(self).users@[j], hall)
                } else {
                    old(self).users@[j]
                }),
    {
        let n = self.assignments.len();
        for k in 0..n
            invariant
                n == self.assignments@.len(),
                self.rosters == old(self).rosters,
                self.users == old(self).users,
                forall|j: int| k <= j < n ==> self.assignments@[j] == old(self).assignments@[j],
                forall|j: int|
                    0 <= j < k ==> #[trigger] self.assignments@[j] == (if old(
                        self,
                    ).assignments@[j].id == user_roster_id {
                        (Assignment { hall, ..old(self).assignments@[j] })
                    } else {
                        old(self).assignments@[j]
                    }),
        {
            if self.assignments[k].id == user_roster_id {
                self.assignments[k].hall = hall;
            }
        }
        match find_user_index(&self.users, user_id) {
            Option::Some(k) => {
                self.users[k].current_roster_hall = Option::Some(hall);
            },
            Option::None => {},
        }
        Result::Ok(crate::dto::Message::new("User hall updated successfully", Option::None))
    }

    /// The first stored roster flagged active, if any. Under the
    /// single-active invariant the commit maintains, it is the only one.
    pub fn find_active(&self) -> (r: Option<&RosterDefinition>)
        ensures
            r is None <==> (forall|i: int|
                0 <= i < self.rosters@.len() ==> !(#[trigger] self.rosters@[i]).is_active),
            r matches Some(ro) ==> exists|i: int|
                0 <= i < self.rosters@.len() && *ro == #[trigger] self.rosters@[i]
                    && ro.is_active,
    {
        let n = self.rosters.len();
        for i in 0..n
            invariant
                n == self.rosters@.len(),
                forall|j: int| 0 <= j < i ==> !(#[trigger] self.rosters@[j]).is_active,
        {
            if self.rosters[i].is_active {
                return Option::Some(&self.rosters[i]);
            }
        }
        Option::None
    }

    /// Store a new, inactive roster definition built from an
    /// administrative request, and return its fresh identity. Rejected
    /// only if the fresh identity collides with a stored one, which the
    /// storage layer would refuse as a key conflict.
    pub fn create_roster(&mut self, new: crate::roster::NewRoster) -> (r: Result<
        u128,
        ModuleError,
    >)
        requires
            old(self).wf(),
        ensures
            final(self).wf(),
            r is Err ==> *final(self) == *old(self) && (r matches Err(ModuleError::InternalError(m))
                ==> m@ == "Key conflict"@),
            r matches Ok(id) ==> {
                &&& final(self).users == old(self).users
                &&& final(self).assignments == old(self).assignments
                &&& final(self).rosters@.len() == old(self).rosters@.len() + 1
                &&& (forall|j: int|
                    0 <= j < old(self).rosters@.len() ==> final(self).rosters@[j] == old(
                        self,
                    ).rosters@[j])
                &&& final(self).rosters@.last().id == id
                &&& !final(self).rosters@.last().is_active
                &&& final(self).rosters@.last().name == new.name
                &&& final(self).rosters@.last().start_date == new.start_date
                &&& final(self).rosters@.last().end_date == new.end_date
                &&& final(self).rosters@.last().year == new.year
                &&& final(self).rosters@.last().gendered == new.gendered
                &&& (forall|h: Hall|
                    final(self).rosters@.last().spec_quota(h) == (RosterDefinition {
                        id: 0,
                        name: new.name,
                        is_active: false,
                        start_date: new.start_date,
                        end_date: new.end_date,
                        year: new.year,
                        gendered: new.gendered,
                        main_hall: new.main_hall,
                        hall_one: new.hall_one,
                        gallery: new.gallery,
                        basement: new.basement,
                        outside: new.outside,
                        created_at: 0,
                    }).spec_quota(h))
            },
    {
        let ro = RosterDefinition::create(new);
        let id = ro.id;
        match find_roster_index(&self.rosters, id) {
            Option::Some(_) => {
                return Result::Err(ModuleError::InternalError(String::from_str("Key conflict")));
            },
            Option::None => {},
        }
        let ghost prev = self.rosters@;
        self.rosters.push(ro);
        proof {
            assert forall|i: int, j: int|
                0 <= i < j < self.rosters@.len() implies self.rosters@[i].id
                != self.rosters@[j].id by {
                if j < prev.len() {
                    assert(self.rosters@[i] == prev[i] && self.rosters@[j] == prev[j]);
                } else {
                    assert(self.rosters@[j].id == id);
                    assert(self.rosters@[i] == prev[i]);
                }
            }
        }
        Result::Ok(id)
    }

    /// The stored roster with identity `id`; unknown rosters are rejected.
    pub fn get_roster(&self, id: u128) -> (r: Result<&RosterDefinition, ModuleError>)
        requires
            self.wf(),
        ensures
            r is Ok <==> self.spec_has_roster(id),
            r matches Ok(ro) ==> *ro == self.spec_roster(id),
            r matches Err(e) ==> e matches ModuleError::ResourceNotFound(m) && m@
                == "Roster not found"@,
    {
        match find_roster_index(&self.rosters, id) {
            Option::Some(k) => {
                proof {
                    let c = self.spec_roster_index(id);
                    assert(self.rosters@[c].id == id);
                    assert(c == k as int);
                }
                Result::Ok(&self.rosters[k])
            },
            Option::None => Result::Err(
                ModuleError::ResourceNotFound(String::from_str("Roster not found")),
            ),
        }
    }

    /// Update the stored roster the request names, field by field;
    /// unknown rosters are rejected.
    pub fn update_roster(&mut self, req: crate::roster::UpdateRosterRequest) -> (r: Result<
        (),
        ModuleError,
    >)
        requires
            old(self).wf(),
        ensures
            final(self).wf(),
            r is Err ==> *final(self) == *old(self),
            r is Ok <==> old(self).spec_has_roster(req.id),
            r matches Err(e) ==> e matches ModuleError::ResourceNotFound(m) && m@
                == "Roster not found"@,
            r is Ok ==> {
                &&& final(self).users == old(self).users
                &&& final(self).assignments == old(self).assignments
                &&& final(self).rosters@ == old(self).rosters@.update(
                    old(self).spec_roster_index(req.id),
                    crate::roster::spec_apply_update(old(self).spec_roster(req.id), req),
                )
            },
    {
        let found = find_roster_index(&self.rosters, req.id);
        let idx = match found {
            Option::None => {
                return Result::Err(
                    ModuleError::ResourceNotFound(String::from_str("Roster not found")),
                );
            },
            Option::Some(k) => k,
        };
        proof {
            assert(self.spec_has_roster(req.id));
            let c = self.spec_roster_index(req.id);
            assert(self.rosters@[c].id == req.id);
            assert(c == idx as int);
        }
        let ghost rid = req.id;
        self.rosters[idx].apply_update(req);
        proof {
            assert forall|i: int, j: int|
                0 <= i < j < self.rosters@.len() implies self.rosters@[i].id
                != self.rosters@[j].id by {
                assert(self.rosters@[i].id == old(self).rosters@[i].id);
                assert(self.rosters@[j].id == old(self).rosters@[j].id);
            }
        }
        Result::Ok(())
    }

    /// Delete the stored roster with identity `id`; deleting an unknown
    /// roster changes nothing and still succeeds, as a storage delete of
    /// zero rows does.
    pub fn delete_roster(&mut self, id: u128) -> (r: Result<(), ModuleError>)
        requires
            old(self).wf(),
        ensures
            final(self).wf(),
            r is Ok,
            final(self).users == old(self).users,
            final(self).assignments == old(self).assignments,
            !old(self).spec_has_roster(id) ==> final(self).rosters == old(self).rosters,
            old(self).spec_has_roster(id) ==> final(self).rosters@ == old(self).rosters@.remove(
                old(self).spec_roster_index(id),
            ),
    {
        let found = find_roster_index(&self.rosters, id);
        match found {
            Option::None => Result::Ok(()),
            Option::Some(k) => {
                proof {
                    assert(self.spec_has_roster(id));
                    let c = self.spec_roster_index(id);
                    assert(self.rosters@[c].id == id);
                    assert(c == k as int);
                }
                self.rosters.remove(k);
                proof {
                    assert forall|i: int, j: int|
                        0 <= i < j < self.rosters@.len() implies self.rosters@[i].id
                        != self.rosters@[j].id by {
                        let oi = if i < k as int {
                            i
                        } else {
                            i + 1
                        };
                        let oj = if j < k as int {
                            j
                        } else {
                            j + 1
                        };
                        assert(self.rosters@[i] == old(self).rosters@[oi]);
                        assert(self.rosters@[j] == old(self).rosters@[oj]);
                    }
                }
                Result::Ok(())
            },
        }
    }
}

/// The hall that sharing `roster_id` leaves on the profile of `user_id`:
/// the hall of the last stored row for that roster and user, if any.
pub open spec fn spec_shared_hall(
    assignments: Seq<Assignment>,
    roster_id: u128,
    user_id: u128,
) -> Option<Hall>
    decreases assignments.len(),
{
    if assignments.len() == 0 {
        Option::None
    } else if assignments.last().roster_id == roster_id && assignments.last().user_id == user_id {
        Option::Some(assignments.last().hall)
    } else {
        spec_shared_hall(assignments.drop_last(), roster_id, user_id)
    }
}

/// The index of the user with identity `id`; `None` if unknown.
pub(crate) fn find_user_index(users: &Vec<User>, id: u128) -> (r: Option<usize>)
    ensures
        r is None <==> (forall|i: int| 0 <= i < users@.len() ==> (#[trigger] users@[i]).id != id),
        r matches Some(k) ==> k < users@.len() && users@[k as int].id == id,
{
    let n = users.len();
    for i in 0..n
        invariant
            n == users@.len(),
            forall|j: int| 0 <= j < i ==> (#[trigger] users@[j]).id != id,
    {
        if users[i].id == id {
            return Option::Some(i);
        }
    }
    Option::None
}

/// Write each placed user's hall onto their profile; profiles without a
/// placement are untouched.
fn write_back_halls(users: &mut Vec<User>, placements: &Vec<Placement>)
    ensures
        final(users)@.len() == old(users)@.len(),
        forall|j: int|
            0 <= j < old(users)@.len() ==> final(users)@[j] == (match spec_placement_for(
                placements@,
                old(users)@[j].id,
            ) {
                Option::Some(p) => spec_with_hall(old(users)@[j], p.hall),
                Option::None => old(users)@[j],
            }),
{
    let n = users.len();
    for j in 0..n
        invariant
            n == users@.len(),
            forall|i: int| j <= i < n ==> #[trigger] users@[i] == old(users)@[i],
            forall|i: int|
                0 <= i < j ==> #[trigger] users@[i] == (match spec_placement_for(
                    placements@,
                    old(users)@[i].id,
                ) {
                    Option::Some(p) => spec_with_hall(old(users)@[i], p.hall),
                    Option::None => old(users)@[i],
                }),
    {
        match find_placement(placements, users[j].id) {
            Option::Some(p) => {
                users[j].current_roster_hall = Option::Some(p.hall);
            },
            Option::None => {},
        }
    }
}

} // verus!
