//! Read-only views over committed state: assignment listings, per-person
//! history, and per-hall fill statistics.

use vstd::prelude::*;

use crate::dto::{RosterAssignmentDto, UserRosterHistoryDto};
use crate::engine::{spec_max0, RosterSystem};
use crate::errors::ModuleError;
use crate::halls::{all_halls, spec_gender_of_opt, Gender, Hall};
use crate::history::Assignment;
use crate::roster::RosterDefinition;
use crate::users::User;

verus! {

/// Per-hall fill statistics for one roster: seats expected from the
/// quota, seats taken by committed rows, the remainder floored at zero,
/// whole-number percentages, and counts split by gender tag.
#[derive(Debug, Clone, Copy)]
pub struct RosterStatsByHallDto {
    pub hall: Hall,
    pub roster_id: u128,
    pub total_expected: i32,
    pub total_assigned: i32,
    pub total_unassigned: i32,
    pub percentage_assigned: i64,
    pub percentage_unassigned: i64,
    pub number_of_male: u32,
    pub number_of_female: u32,
}

/// The first stored user with identity `id`, if any.
pub open spec fn spec_find_user(users: Seq<User>, id: u128) -> Option<User>
    decreases users.len(),
{
    if users.len() == 0 {
        Option::None
    } else if users[0].id == id {
        Option::Some(users[0])
    } else {
        spec_find_user(users.subrange(1, users.len() as int), id)
    }
}

/// With unique identities, any stored user with identity `id` is the one
/// the lookup finds.
pub proof fn lemma_find_user_unique(users: Seq<User>, id: u128, k: int)
    requires
        forall|i: int, j: int| 0 <= i < j < users.len() ==> users[i].id != users[j].id,
        0 <= k < users.len(),
        users[k].id == id,
    ensures
        spec_find_user(users, id) == Option::Some(users[k]),
    decreases users.len(),
{
    if users[0].id == id {
        if k != 0 {
            assert(users[0].id != users[k].id);
        }
    } else {
        let rest = users.subrange(1, users.len() as int);
        lemma_find_user_unique(rest, id, k - 1);
    }
}

/// When no stored user has identity `id`, the lookup finds none.
pub proof fn lemma_find_user_none(users: Seq<User>, id: u128)
    requires
        forall|i: int| 0 <= i < users.len() ==> (#[trigger] users[i]).id != id,
    ensures
        spec_find_user(users, id) is None,
    decreases users.len(),
{
    if users.len() > 0 {
        lemma_find_user_none(users.subrange(1, users.len() as int), id);
    }
}

/// The rows of `roster_id` (optionally narrowed to one hall) joined, in
/// scan order, with the stored profile they reference; rows whose person
/// is not stored are dropped, as an inner join drops them.
pub open spec fn spec_roster_rows(
    assignments: Seq<Assignment>,
    users: Seq<User>,
    roster_id: u128,
    hall_filter: Option<Hall>,
) -> Seq<(Assignment, User)>
    decreases assignments.len(),
{
    if assignments.len() == 0 {
        seq![]
    } else {
        let rest = spec_roster_rows(
            assignments.subrange(1, assignments.len() as int),
            users,
            roster_id,
            hall_filter,
        );
        let a = assignments[0];
        let hall_ok = match hall_filter {
            Option::None => true,
            Option::Some(h) => a.hall == h,
        };
        if a.roster_id == roster_id && hall_ok && spec_find_user(users, a.user_id) is Some {
            seq![(a, spec_find_user(users, a.user_id)->0)] + rest
        } else {
            rest
        }
    }
}

/// Collect the joined rows as (row, index of the user) pairs.
pub(crate) fn collect_roster_rows(
    assignments: &Vec<Assignment>,
    users: &Vec<User>,
    roster_id: u128,
    hall_filter: Option<Hall>,
) -> (r: Vec<(Assignment, usize)>)
    requires
        forall|i: int, j: int| 0 <= i < j < users@.len() ==> users@[i].id != users@[j].id,
    ensures
        r@.map_values(|t: (Assignment, usize)| (t.0, users@[t.1 as int])) == spec_roster_rows(
            assignments@,
            users@,
            roster_id,
            hall_filter,
        ),
        forall|k: int| 0 <= k < r@.len() ==> (#[trigger] r@[k]).1 < users@.len(),
{
    let n = assignments.len();
    let mut out: Vec<(Assignment, usize)> = Vec::new();
    let mut i: usize = 0;
    proof {
        assert(assignments@.skip(0) =~= assignments@);
        assert(Seq::<(Assignment, User)>::empty() + spec_roster_rows(
            assignments@,
            users@,
            roster_id,
            hall_filter,
        ) =~= spec_roster_rows(assignments@, users@, roster_id, hall_filter));
    }
    while i < n
        invariant
            n == assignments@.len(),
            i <= n,
            forall|i2: int, j2: int| 0 <= i2 < j2 < users@.len() ==> users@[i2].id != users@[j2].id,
            forall|k: int| 0 <= k < out@.len() ==> (#[trigger] out@[k]).1 < users@.len(),
            spec_roster_rows(assignments@, users@, roster_id, hall_filter) == out@.map_values(
                |t: (Assignment, usize)| (t.0, users@[t.1 as int]),
            ) + spec_roster_rows(assignments@.skip(i as int), users@, roster_id, hall_filter),
        decreases n - i,
    {
        proof {
            let tail = assignments@.skip(i as int);
            assert(tail[0] == assignments@[i as int]);
            assert(tail.subrange(1, tail.len() as int) =~= assignments@.skip(i + 1));
        }
        let a = assignments[i];
        let hall_ok = match hall_filter {
            Option::None => true,
            Option::Some(h) => a.hall == h,
        };
        if a.roster_id == roster_id && hall_ok {
            match crate::engine::find_user_index(users, a.user_id) {
                Option::Some(k) => {
                    proof {
                        lemma_find_user_unique(users@, a.user_id, k as int);
                    }
                    let ghost prev = out@;
                    out.push((a, k));
                    proof {
                        let f = |t: (Assignment, usize)| (t.0, users@[t.1 as int]);
                        assert(out@.map_values(f) =~= prev.map_values(f).push(
                            (a, users@[k as int]),
                        ));
                        assert(prev.map_values(f).push((a, users@[k as int]))
                            + spec_roster_rows(
                            assignments@.skip(i + 1),
                            users@,
                            roster_id,
                            hall_filter,
                        ) =~= prev.map_values(f) + (seq![(a, users@[k as int])]
                            + spec_roster_rows(
                            assignments@.skip(i + 1),
                            users@,
                            roster_id,
                            hall_filter,
                        )));
                    }
                },
                Option::None => {
                    proof {
                        lemma_find_user_none(users@, a.user_id);
                    }
                },
            }
        }
        i += 1;
    }
    proof {
        assert(assignments@.skip(n as int).len() == 0);
        assert(out@.map_values(|t: (Assignment, usize)| (t.0, users@[t.1 as int])) + seq![]
            =~= out@.map_values(|t: (Assignment, usize)| (t.0, users@[t.1 as int])));
    }
    out
}

/// Whether a listing row faithfully reports a stored row and its person.
pub open spec fn spec_row_matches(d: RosterAssignmentDto, a: Assignment, u: User) -> bool {
    &&& d.id == a.id
    &&& d.user_id == a.user_id
    &&& d.first_name@ == u.first_name@
    &&& d.last_name@ == u.last_name@
    &&& (match (d.gender, u.gender) {
        (Option::None, Option::None) => true,
        (Option::Some(x), Option::Some(y)) => x@ == y@,
        _ => false,
    })
    &&& d.reg_no@ == u.reg_no@
    &&& d.hall == a.hall
}

/// Count the joined rows whose person carries gender tag `g`.
pub open spec fn spec_count_gender(rows: Seq<(Assignment, User)>, g: Gender) -> int
    decreases rows.len(),
{
    if rows.len() == 0 {
        0
    } else {
        spec_count_gender(rows.drop_last(), g) + if spec_gender_of_opt(rows.last().1.gender)
            == Option::Some(g) {
            1int
        } else {
            0int
        }
    }
}

/// Whether a statistics record faithfully reports one hall of a roster.
pub open spec fn spec_stats_correct(
    d: RosterStatsByHallDto,
    assignments: Seq<Assignment>,
    users: Seq<User>,
    roster: RosterDefinition,
    hall: Hall,
) -> bool {
    let rows = spec_roster_rows(assignments, users, roster.id, Option::Some(hall));
    &&& d.hall == hall
    &&& d.roster_id == roster.id
    &&& d.total_expected == roster.spec_quota(hall).total
    &&& d.total_assigned as int == rows.len()
    &&& d.total_unassigned as int == spec_max0(d.total_expected - d.total_assigned)
    &&& d.number_of_male as int == spec_count_gender(rows, Gender::Male)
    &&& d.number_of_female as int == spec_count_gender(rows, Gender::Female)
    &&& d.percentage_assigned as int == (if d.total_expected > 0 {
        d.total_assigned * 100int / d.total_expected as int
    } else {
        0int
    })
    &&& d.percentage_unassigned as int == (if d.total_expected > 0 {
        d.total_unassigned * 100int / d.total_expected as int
    } else {
        0int
    })
}

impl RosterSystem {
    /// The committed rows of one roster, joined with the profile facts a
    /// listing shows, in scan order.
    pub fn view_roster_assignments(&self, roster_id: u128) -> (r: Vec<RosterAssignmentDto>)
        requires
            self.wf(),
        ensures
            ({
                let rows = spec_roster_rows(self.assignments@, self.users@, roster_id, Option::None);
                &&& r@.len() == rows.len()
                &&& forall|k: int|
                    0 <= k < rows.len() ==> spec_row_matches(
                        #[trigger] r@[k],
                        rows[k].0,
                        rows[k].1,
                    )
            }),
    {
        let pairs = collect_roster_rows(&self.assignments, &self.users, roster_id, Option::None);
        let ghost rows = spec_roster_rows(self.assignments@, self.users@, roster_id, Option::None);
        let m = pairs.len();
        let mut out: Vec<RosterAssignmentDto> = Vec::new();
        for k in 0..m
            invariant
                m == pairs@.len(),
                rows == pairs@.map_values(|t: (Assignment, usize)| (t.0, self.users@[t.1 as int])),
                forall|j: int| 0 <= j < m ==> (#[trigger] pairs@[j]).1 < self.users@.len(),
                out@.len() == k,
                forall|j: int|
                    0 <= j < k ==> spec_row_matches(#[trigger] out@[j], rows[j].0, rows[j].1),
        {
            let a = pairs[k].0;
            let u = &self.users[pairs[k].1];
            let gender = match &u.gender {
                Option::None => Option::None,
                Option::Some(s) => Option::Some(s.clone()),
            };
            out.push(
                RosterAssignmentDto {
                    id: a.id,
                    user_id: a.user_id,
                    first_name: u.first_name.clone(),
                    last_name: u.last_name.clone(),
                    gender,
                    reg_no: u.reg_no.clone(),
                    hall: a.hall,
                },
            );
            proof {
                assert(rows[k as int] == (a, self.users@[pairs@[k as int].1 as int]));
            }
        }
        out
    }

    /// Per-hall fill statistics for one hall of a stored roster.
    pub fn calculate_hall_stats(&self, roster: &RosterDefinition, hall: Hall) -> (r:
        RosterStatsByHallDto)
        requires
            self.wf(),
            self.assignments@.len() <= i32::MAX,
        ensures
            spec_stats_correct(r, self.assignments@, self.users@, *roster, hall),
    {
        let pairs = collect_roster_rows(
            &self.assignments,
            &self.users,
            roster.id,
            Option::Some(hall),
        );
        let ghost rows = spec_roster_rows(
            self.assignments@,
            self.users@,
            roster.id,
            Option::Some(hall),
        );
        let m = pairs.len();
        proof {
            lemma_roster_rows_len(self.assignments@, self.users@, roster.id, Option::Some(hall));
            assert(rows.len() == pairs@.len());
        }
        let mut male: u32 = 0;
        let mut female: u32 = 0;
        for k in 0..m
            invariant
                m == pairs@.len(),
                m <= 0x7fff_ffff,
                rows == pairs@.map_values(|t: (Assignment, usize)| (t.0, self.users@[t.1 as int])),
                forall|j: int| 0 <= j < m ==> (#[trigger] pairs@[j]).1 < self.users@.len(),
                male as int == spec_count_gender(rows.subrange(0, k as int), Gender::Male),
                female as int == spec_count_gender(rows.subrange(0, k as int), Gender::Female),
                male <= k,
                female <= k,
                m == rows.len(),
        {
            proof {
                assert(rows.subrange(0, k + 1).drop_last() =~= rows.subrange(0, k as int));
                assert(rows.subrange(0, k + 1).last() == rows[k as int]);
                assert(rows[k as int] == (pairs@[k as int].0, self.users@[pairs@[k as int].1 as int]));
            }
            let u = &self.users[pairs[k].1];
            match crate::halls::parse_gender(&u.gender) {
                Option::Some(Gender::Male) => {
                    male = male + 1;
                },
                Option::Some(Gender::Female) => {
                    female = female + 1;
                },
                Option::None => {},
            }
        }
        proof {
            assert(rows.subrange(0, m as int) =~= rows);
        }
        let total_expected = roster.quota(hall).total;
        let total_assigned: i32 = pairs.len() as i32;
        let total_unassigned: i32 = if total_expected > total_assigned {
            total_expected - total_assigned
        } else {
            0
        };
        let percentage_assigned: i64 = if total_expected > 0 {
            (total_assigned as i64) * 100 / (total_expected as i64)
        } else {
            0
        };
        let percentage_unassigned: i64 = if total_expected > 0 {
            (total_unassigned as i64) * 100 / (total_expected as i64)
        } else {
            0
        };
        RosterStatsByHallDto {
            hall,
            roster_id: roster.id,
            total_expected,
            total_assigned,
            total_unassigned,
            percentage_assigned,
            percentage_unassigned,
            number_of_male: male,
            number_of_female: female,
        }
    }
}

/// The first stored roster with identity `id`, if any.
pub open spec fn spec_find_roster(rosters: Seq<RosterDefinition>, id: u128) -> Option<
    RosterDefinition,
>
    decreases rosters.len(),
{
    if rosters.len() == 0 {
        Option::None
    } else if rosters[0].id == id {
        Option::Some(rosters[0])
    } else {
        spec_find_roster(rosters.subrange(1, rosters.len() as int), id)
    }
}

/// With unique identities, any stored roster with identity `id` is the
/// one the lookup finds.
pub proof fn lemma_find_roster_unique(rosters: Seq<RosterDefinition>, id: u128, k: int)
    requires
        forall|i: int, j: int| 0 <= i < j < rosters.len() ==> rosters[i].id != rosters[j].id,
        0 <= k < rosters.len(),
        rosters[k].id == id,
    ensures
        spec_find_roster(rosters, id) == Option::Some(rosters[k]),
    decreases rosters.len(),
{
    if rosters[0].id == id {
        if k != 0 {
            assert(rosters[0].id != rosters[k].id);
        }
    } else {
        lemma_find_roster_unique(rosters.subrange(1, rosters.len() as int), id, k - 1);
    }
}

/// When no stored roster has identity `id`, the lookup finds none.
pub proof fn lemma_find_roster_none(rosters: Seq<RosterDefinition>, id: u128)
    requires
        forall|i: int| 0 <= i < rosters.len() ==> (#[trigger] rosters[i]).id != id,
    ensures
        spec_find_roster(rosters, id) is None,
    decreases rosters.len(),
{
    if rosters.len() > 0 {
        lemma_find_roster_none(rosters.subrange(1, rosters.len() as int), id);
    }
}

/// The rows of one person joined, in scan order, with the roster they
/// belong to; rows whose roster is not stored are dropped.
pub open spec fn spec_history_rows(
    assignments: Seq<Assignment>,
    rosters: Seq<RosterDefinition>,
    user_id: u128,
) -> Seq<(Assignment, RosterDefinition)>
    decreases assignments.len(),
{
    if assignments.len() == 0 {
        seq![]
    } else {
        let rest = spec_history_rows(
            assignments.subrange(1, assignments.len() as int),
            rosters,
            user_id,
        );
        let a = assignments[0];
        if a.user_id == user_id && spec_find_roster(rosters, a.roster_id) is Some {
            seq![(a, spec_find_roster(rosters, a.roster_id)->0)] + rest
        } else {
            rest
        }
    }
}

/// Whether a history row faithfully reports a stored row and its roster.
pub open spec fn spec_history_row_matches(
    d: UserRosterHistoryDto,
    a: Assignment,
    ro: RosterDefinition,
) -> bool {
    &&& d.id == a.id
    &&& d.roster_id == a.roster_id
    &&& d.roster_name@ == ro.name@
    &&& d.hall == a.hall
    &&& d.year == a.year
    &&& d.start_date == ro.start_date
    &&& d.end_date == ro.end_date
    &&& d.is_active == ro.is_active
    &&& d.assigned_at == a.created_at
}

impl RosterSystem {
    /// One person's assignment history, each row joined with the roster
    /// it belongs to, in scan order.
    pub fn get_user_roster_history(&self, user_id: u128) -> (r: Vec<UserRosterHistoryDto>)
        requires
            self.wf(),
        ensures
            ({
                let rows = spec_history_rows(self.assignments@, self.rosters@, user_id);
                &&& r@.len() == rows.len()
                &&& forall|k: int|
                    0 <= k < rows.len() ==> spec_history_row_matches(
                        #[trigger] r@[k],
                        rows[k].0,
                        rows[k].1,
                    )
            }),
    {
        let ghost rows = spec_history_rows(self.assignments@, self.rosters@, user_id);
        let n = self.assignments.len();
        let mut out: Vec<UserRosterHistoryDto> = Vec::new();
        let mut i: usize = 0;
        proof {
            assert(self.assignments@.skip(0) =~= self.assignments@);
        }
        while i < n
            invariant
                self.wf(),
                n == self.assignments@.len(),
                i <= n,
                rows == spec_history_rows(self.assignments@, self.rosters@, user_id),
                out@.len() + spec_history_rows(
                    self.assignments@.skip(i as int),
                    self.rosters@,
                    user_id,
                ).len() == rows.len(),
                forall|k: int|
                    0 <= k < out@.len() ==> spec_history_row_matches(
                        #[trigger] out@[k],
                        rows[k].0,
                        rows[k].1,
                    ),
                rows =~= rows.subrange(0, out@.len() as int) + spec_history_rows(
                    self.assignments@.skip(i as int),
                    self.rosters@,
                    user_id,
                ),
            decreases n - i,
        {
            proof {
                let tail = self.assignments@.skip(i as int);
                assert(tail[0] == self.assignments@[i as int]);
                assert(tail.subrange(1, tail.len() as int) =~= self.assignments@.skip(i + 1));
            }
            let a = self.assignments[i];
            if a.user_id == user_id {
                match crate::engine::find_roster_index(&self.rosters, a.roster_id) {
                    Option::Some(k) => {
                        proof {
                            lemma_find_roster_unique(self.rosters@, a.roster_id, k as int);
                            assert(rows[out@.len() as int] == (a, self.rosters@[k as int]));
                        }
                        let ro = &self.rosters[k];
                        out.push(
                            UserRosterHistoryDto {
                                id: a.id,
                                roster_id: a.roster_id,
                                roster_name: ro.name.clone(),
                                hall: a.hall,
                                year: a.year,
                                start_date: ro.start_date,
                                end_date: ro.end_date,
                                is_active: ro.is_active,
                                assigned_at: a.created_at,
                            },
                        );
                    },
                    Option::None => {
                        proof {
                            lemma_find_roster_none(self.rosters@, a.roster_id);
                        }
                    },
                }
            }
            i += 1;
        }
        proof {
            assert(self.assignments@.skip(n as int).len() == 0);
            assert(rows.subrange(0, out@.len() as int) =~= rows);
        }
        out
    }

    /// Per-hall fill statistics for every hall of one stored roster, in
    /// canonical hall order; unknown rosters are rejected.
    pub fn get_roster_stats_per_hall(&self, roster_id: u128) -> (r: Result<
        Vec<RosterStatsByHallDto>,
        ModuleError,
    >)
        requires
            self.wf(),
            self.assignments@.len() <= i32::MAX,
        ensures
            r is Err <==> !self.spec_has_roster(roster_id),
            r matches Err(e) ==> e matches ModuleError::ResourceNotFound(m) && m@
                == "Roster not found"@,
            r matches Ok(stats) ==> {
                &&& stats@.len() == all_halls().len()
                &&& forall|k: int|
                    0 <= k < all_halls().len() ==> spec_stats_correct(
                        #[trigger] stats@[k],
                        self.assignments@,
                        self.users@,
                        self.spec_roster(roster_id),
                        all_halls()[k],
                    )
            },
    {
        let found = crate::engine::find_roster_index(&self.rosters, roster_id);
        let idx = match found {
            Option::None => {
                return Result::Err(
                    ModuleError::ResourceNotFound(String::from_str("Roster not found")),
                );
            },
            Option::Some(k) => k,
        };
        proof {
            assert(self.spec_has_roster(roster_id));
            let c = self.spec_roster_index(roster_id);
            assert(self.rosters@[c].id == roster_id);
            assert(c == idx as int);
        }
        let halls = Hall::all();
        let mut stats: Vec<RosterStatsByHallDto> = Vec::new();
        let m = halls.len();
        for k in 0..m
            invariant
                m == halls@.len(),
                halls@ =~= all_halls(),
                self.wf(),
                self.assignments@.len() <= i32::MAX,
                idx < self.rosters@.len(),
                self.rosters@[idx as int] == self.spec_roster(roster_id),
                stats@.len() == k,
                forall|j: int|
                    0 <= j < k ==> spec_stats_correct(
                        #[trigger] stats@[j],
                        self.assignments@,
                        self.users@,
                        self.spec_roster(roster_id),
                        halls@[j],
                    ),
        {
            let s = self.calculate_hall_stats(&self.rosters[idx], halls[k]);
            stats.push(s);
        }
        Result::Ok(stats)
    }

    /// Per-hall fill statistics for one hall of one stored roster;
    /// unknown rosters are rejected.
    pub fn get_roster_stats_for_hall(&self, roster_id: u128, hall: Hall) -> (r: Result<
        RosterStatsByHallDto,
        ModuleError,
    >)
        requires
            self.wf(),
            self.assignments@.len() <= i32::MAX,
        ensures
            r is Err <==> !self.spec_has_roster(roster_id),
            r matches Err(e) ==> e matches ModuleError::ResourceNotFound(m) && m@
                == "Roster not found"@,
            r matches Ok(s) ==> spec_stats_correct(
                s,
                self.assignments@,
                self.users@,
                self.spec_roster(roster_id),
                hall,
            ),
    {
        let found = crate::engine::find_roster_index(&self.rosters, roster_id);
        let idx = match found {
            Option::None => {
                return Result::Err(
                    ModuleError::ResourceNotFound(String::from_str("Roster not found")),
                );
            },
            Option::Some(k) => k,
        };
        proof {
            assert(self.spec_has_roster(roster_id));
            let c = self.spec_roster_index(roster_id);
            assert(self.rosters@[c].id == roster_id);
            assert(c == idx as int);
        }
        Result::Ok(self.calculate_hall_stats(&self.rosters[idx], hall))
    }
}

/// A join returns at most one row per stored row.
pub proof fn lemma_roster_rows_len(
    assignments: Seq<Assignment>,
    users: Seq<User>,
    roster_id: u128,
    hall_filter: Option<Hall>,
)
    ensures
        spec_roster_rows(assignments, users, roster_id, hall_filter).len() <= assignments.len(),
    decreases assignments.len(),
{
    if assignments.len() > 0 {
        lemma_roster_rows_len(
            assignments.subrange(1, assignments.len() as int),
            users,
            roster_id,
            hall_filter,
        );
    }
}

} // verus!
