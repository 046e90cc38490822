//! Importing an uploaded roster: match rows naming people to stored
//! profiles and commit the named assignments.

use vstd::prelude::*;

use crate::dto::CsvUserRoster;
use crate::engine::{find_roster_index, find_user_index, spec_with_hall, RosterSystem};
use crate::errors::ModuleError;
use crate::halls::Hall;
use crate::history::Assignment;
use crate::users::User;

verus! {

/// The first stored user carrying exactly this first and last name.
pub open spec fn spec_name_match(users: Seq<User>, first: Seq<char>, last: Seq<char>) -> Option<
    User,
>
    decreases users.len(),
{
    if users.len() == 0 {
        Option::None
    } else if users[0].first_name@ == first && users[0].last_name@ == last {
        Option::Some(users[0])
    } else {
        spec_name_match(users.subrange(1, users.len() as int), first, last)
    }
}

/// What an uploaded roster resolves to: one (person, hall) pair per row
/// that names a hall and matches a stored profile, in row order.
pub open spec fn spec_import_list(rows: Seq<CsvUserRoster>, users: Seq<User>) -> Seq<(u128, Hall)>
    decreases rows.len(),
{
    if rows.len() == 0 {
        seq![]
    } else {
        let rest = spec_import_list(rows.subrange(1, rows.len() as int), users);
        let row = rows[0];
        match (row.hall, spec_name_match(users, row.first_name@, row.last_name@)) {
            (Option::Some(h), Option::Some(u)) => seq![(u.id, h)] + rest,
            _ => rest,
        }
    }
}

/// The hall the import leaves on one person's profile: that of the last
/// resolved pair naming them, if any.
pub open spec fn spec_import_hall(list: Seq<(u128, Hall)>, user_id: u128) -> Option<Hall>
    decreases list.len(),
{
    if list.len() == 0 {
        Option::None
    } else if list.last().0 == user_id {
        Option::Some(list.last().1)
    } else {
        spec_import_hall(list.drop_last(), user_id)
    }
}

/// The name lookup finds the first stored user carrying the names.
proof fn lemma_name_match_first(users: Seq<User>, first: Seq<char>, last: Seq<char>, k: int)
    requires
        0 <= k < users.len(),
        users[k].first_name@ == first && users[k].last_name@ == last,
        forall|j: int|
            0 <= j < k ==> !((#[trigger] users[j]).first_name@ == first && users[j].last_name@
                == last),
    ensures
        spec_name_match(users, first, last) == Option::Some(users[k]),
    decreases users.len(),
{
    if !(users[0].first_name@ == first && users[0].last_name@ == last) {
        lemma_name_match_first(users.subrange(1, users.len() as int), first, last, k - 1);
    }
}

/// The name lookup finds none when no stored user carries the names.
proof fn lemma_name_match_none(users: Seq<User>, first: Seq<char>, last: Seq<char>)
    requires
        forall|j: int|
            0 <= j < users.len() ==> !((#[trigger] users[j]).first_name@ == first
                && users[j].last_name@ == last),
    ensures
        spec_name_match(users, first, last) is None,
    decreases users.len(),
{
    if users.len() > 0 {
        lemma_name_match_none(users.subrange(1, users.len() as int), first, last);
    }
}

/// The index of the first stored user carrying the names, if any.
fn find_user_by_name(users: &Vec<User>, first: &String, last: &String) -> (r: Option<usize>)
    ensures
        r is None ==> spec_name_match(users@, first@, last@) is None,
        r matches Some(k) ==> k < users@.len() && spec_name_match(users@, first@, last@)
            == Option::Some(users@[k as int]),
{
    let n = users.len();
    for i in 0..n
        invariant
            n == users@.len(),
            forall|j: int|
                0 <= j < i ==> !((#[trigger] users@[j]).first_name@ == first@
                    && users@[j].last_name@ == last@),
    {
        if users[i].first_name.eq(first) && users[i].last_name.eq(last) {
            proof {
                lemma_name_match_first(users@, first@, last@, i as int);
            }
            return Option::Some(i);
        }
    }
    proof {
        lemma_name_match_none(users@, first@, last@);
    }
    Option::None
}

impl RosterSystem {
    /// Commit an uploaded roster: each row that names a hall and matches
    /// a stored profile by first and last name becomes a fresh row of
    /// `roster_id` carrying the roster's year, and the person's profile
    /// is stamped with the hall. Rejects, leaving the store untouched,
    /// when the roster is unknown or when no row matches any profile.
    pub fn import_roster(&mut self, roster_id: u128, rows: Vec<CsvUserRoster>) -> (r: Result<
        (),
        ModuleError,
    >)
        requires
            old(self).wf(),
        ensures
            final(self).wf(),
            r is Err ==> *final(self) == *old(self),
            !old(self).spec_has_roster(roster_id) ==> (r matches Err(
                ModuleError::ResourceNotFound(m),
            ) && m@ == "Roster not found"@),
            old(self).spec_has_roster(roster_id) && spec_import_list(rows@, old(self).users@).len()
                == 0 ==> (r matches Err(ModuleError::BadRequest(m)) && m@
                == "could not match any user in the uploaded roster"@),
            old(self).spec_has_roster(roster_id) && spec_import_list(rows@, old(self).users@).len()
                > 0 ==> r is Ok,
            r is Ok ==> ({
                let list = spec_import_list(rows@, old(self).users@);
                &&& final(self).rosters == old(self).rosters
                &&& final(self).assignments@.len() == old(self).assignments@.len() + list.len()
                &&& (forall|k: int|
                    0 <= k < old(self).assignments@.len() ==> final(self).assignments@[k] == old(
                        self,
                    ).assignments@[k])
                &&& (forall|k: int|
                    0 <= k < list.len() ==> {
                        let a = #[trigger] final(self).assignments@[old(self).assignments@.len()
                            + k];
                        a.user_id == list[k].0 && a.hall == list[k].1 && a.roster_id == roster_id
                            && a.year == old(self).spec_roster(roster_id).year
                    })
                &&& final(self).users@.len() == old(self).users@.len()
                &&& (forall|j: int|
                    0 <= j < old(self).users@.len() ==> final(self).users@[j] == (
                    match spec_import_hall(list, old(self).users@[j].id) {
                        Option::Some(h) => spec_with_hall(old(self).users@[j], h),
                        Option::None => old(self).users@[j],
                    }))
            }),
    {
        let found = find_roster_index(&self.rosters, roster_id);
        let idx = match found {
            Option::None => {
                return Result::Err(
                    ModuleError::ResourceNotFound(String::from_str("Roster not found")),
                );
            },
            Option::Some(k) => k,
        };
        proof {
            assert(self.spec_has_roster(roster_id));
            let c = self.spec_roster_index(roster_id);
            assert(self.rosters@[c].id == roster_id);
            assert(c == idx as int);
        }
        let year = self.rosters[idx].year;
        let ghost list = spec_import_list(rows@, self.users@);
        let mut staged: Vec<(u128, Hall)> = Vec::new();
        let n = rows.len();
        let mut i: usize = 0;
        proof {
            assert(rows@.skip(0) =~= rows@);
            assert(Seq::<(u128, Hall)>::empty() + list =~= list);
        }
        while i < n
            invariant
                n == rows@.len(),
                i <= n,
                list == spec_import_list(rows@, self.users@),
                list == staged@ + spec_import_list(rows@.skip(i as int), self.users@),
            decreases n - i,
        {
            proof {
                let tail = rows@.skip(i as int);
                assert(tail[0] == rows@[i as int]);
                assert(tail.subrange(1, tail.len() as int) =~= rows@.skip(i + 1));
            }
            let row = &rows[i];
            match &row.hall {
                Option::Some(h) => {
                    match find_user_by_name(&self.users, &row.first_name, &row.last_name) {
                        Option::Some(k) => {
                            let ghost prev = staged@;
                            staged.push((self.users[k].id, *h));
                            proof {
                                assert(prev.push((self.users@[k as int].id, *h))
                                    + spec_import_list(rows@.skip(i + 1), self.users@) =~= prev + (
                                seq![(self.users@[k as int].id, *h)] + spec_import_list(
                                    rows@.skip(i + 1),
                                    self.users@,
                                )));
                            }
                        },
                        Option::None => {},
                    }
                },
                Option::None => {},
            }
            i += 1;
        }
        proof {
            assert(rows@.skip(n as int).len() == 0);
            assert(staged@ + seq![] =~= staged@);
            assert(staged@ == list);
        }
        if staged.len() == 0 {
            return Result::Err(
                ModuleError::BadRequest(
                    String::from_str("could not match any user in the uploaded roster"),
                ),
            );
        }
        let m = staged.len();
        let ghost base = self.assignments@;
        for k in 0..m
            invariant
                m == staged@.len(),
                staged@ == list,
                self.rosters == old(self).rosters,
                self.users == old(self).users,
                self.assignments@.len() == base.len() + k,
                forall|j: int| 0 <= j < base.len() ==> self.assignments@[j] == base[j],
                forall|j: int|
                    0 <= j < k ==> {
                        let a = #[trigger] self.assignments@[base.len() + j];
                        a.user_id == staged@[j].0 && a.hall == staged@[j].1 && a.roster_id
                            == roster_id && a.year == year
                    },
        {
            let entry = staged[k];
            self.assignments.push(Assignment::new(entry.0, roster_id, entry.1, year));
        }
        let ghost users0 = self.users@;
        let ghost committed = self.assignments@;
        for k in 0..m
            invariant
                m == staged@.len(),
                users0 == old(self).users@,
                self.rosters == old(self).rosters,
                self.assignments@ == committed,
                self.users@.len() == users0.len(),
                forall|i2: int, j2: int|
                    0 <= i2 < j2 < self.users@.len() ==> self.users@[i2].id != self.users@[j2].id,
                forall|j: int|
                    0 <= j < users0.len() ==> #[trigger] self.users@[j] == (
                    match spec_import_hall(staged@.subrange(0, k as int), users0[j].id) {
                        Option::Some(h) => spec_with_hall(users0[j], h),
                        Option::None => users0[j],
                    }),
        {
            proof {
                assert(staged@.subrange(0, k + 1).drop_last() =~= staged@.subrange(0, k as int));
                assert(staged@.subrange(0, k + 1).last() == staged@[k as int]);
            }
            let entry = staged[k];
            match find_user_index(&self.users, entry.0) {
                Option::Some(j) => {
                    proof {
                        assert(self.users@[j as int] == (match spec_import_hall(
                            staged@.subrange(0, k as int),
                            users0[j as int].id,
                        ) {
                            Option::Some(h) => spec_with_hall(users0[j as int], h),
                            Option::None => users0[j as int],
                        }));
                        assert(users0[j as int].id == self.users@[j as int].id);
                    }
                    self.users[j].current_roster_hall = Option::Some(entry.1);
                },
                Option::None => {},
            }
        }
        proof {
            assert(staged@.subrange(0, m as int) =~= staged@);
        }
        Result::Ok(())
    }
}

} // verus!
