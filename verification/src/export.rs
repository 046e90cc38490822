//! CSV export of a roster's committed assignments.

use vstd::prelude::*;

use crate::engine::RosterSystem;
use crate::errors::ModuleError;
use crate::halls::{spec_hall_name, Hall};
use crate::history::Assignment;
use crate::reporting::{collect_roster_rows, spec_roster_rows};
use crate::text::{spec_decimal, u64_to_string};
use crate::users::User;

verus! {

/// One record encoded as one CSV line, with the crate's quoting rules:
/// a pure function of the fields.
pub uninterp spec fn csv_line_of(fields: Seq<Seq<char>>) -> Seq<u8>;

/// Relies on csv::Writer::write_record and csv::Writer::into_inner: one
/// record encoded as one CSV line into an in-memory buffer; the bytes
/// depend on the fields alone.
#[verifier::external_body]
fn csv_encode_line(fields: &Vec<String>) -> (r: Option<Vec<u8>>)
    ensures
        r matches Some(b) ==> b@ == csv_line_of(fields.deep_view()),
{
    let mut w = csv::Writer::from_writer(Vec::new());
    if w.write_record(fields).is_err() {
        return None;
    }
    match w.into_inner() {
        Ok(b) => Some(b),
        Err(_) => None,
    }
}

/// The header fields of every export.
pub open spec fn spec_header_fields() -> Seq<Seq<char>> {
    seq!["S/N"@, "Reg No"@, "Full Name"@, "Hall"@]
}

/// The fields of the export row with serial number `i + 1`.
pub open spec fn spec_row_fields(i: int, a: Assignment, u: User) -> Seq<Seq<char>> {
    seq![
        spec_decimal((i + 1) as nat),
        u.reg_no@,
        u.first_name@ + seq![' '] + u.last_name@,
        spec_hall_name(a.hall),
    ]
}

/// The export: the header line followed by one line per joined row, for
/// the first `upto` rows.
pub open spec fn spec_export_bytes(rows: Seq<(Assignment, User)>, upto: int) -> Seq<u8>
    decreases upto,
{
    if upto <= 0 {
        csv_line_of(spec_header_fields())
    } else {
        spec_export_bytes(rows, upto - 1) + csv_line_of(
            spec_row_fields(upto - 1, rows[upto - 1].0, rows[upto - 1].1),
        )
    }
}

impl RosterSystem {
    /// The CSV export of one roster's committed rows, optionally narrowed
    /// to one hall: a header line, then per joined row a serial number,
    /// the person's registration number and full name, and the hall.
    /// An encoding failure surfaces as an internal error.
    pub fn export_roster_data_filtered(&self, roster_id: u128, filter_hall: Option<Hall>) -> (r:
        Result<Vec<u8>, ModuleError>)
        requires
            self.wf(),
        ensures
            r matches Ok(b) ==> {
                let rows = spec_roster_rows(self.assignments@, self.users@, roster_id, filter_hall);
                b@ == spec_export_bytes(rows, rows.len() as int)
            },
            r matches Err(e) ==> e matches ModuleError::InternalError(m) && m@
                == "CSV encoding failed"@,
    {
        let ghost rows = spec_roster_rows(self.assignments@, self.users@, roster_id, filter_hall);
        let pairs = collect_roster_rows(&self.assignments, &self.users, roster_id, filter_hall);
        let mut header: Vec<String> = Vec::new();
        header.push(String::from_str("S/N"));
        header.push(String::from_str("Reg No"));
        header.push(String::from_str("Full Name"));
        header.push(String::from_str("Hall"));
        proof {
            assert(header.deep_view() =~= spec_header_fields());
        }
        let mut out: Vec<u8> = match csv_encode_line(&header) {
            Option::Some(b) => b,
            Option::None => {
                return Result::Err(
                    ModuleError::InternalError(String::from_str("CSV encoding failed")),
                );
            },
        };
        let m = pairs.len();
        for i in 0..m
            invariant
                m == pairs@.len(),
                rows == pairs@.map_values(|t: (Assignment, usize)| (t.0, self.users@[t.1 as int])),
                forall|j: int| 0 <= j < m ==> (#[trigger] pairs@[j]).1 < self.users@.len(),
                m == rows.len(),
                out@ == spec_export_bytes(rows, i as int),
        {
            proof {
                assert(rows[i as int] == (pairs@[i as int].0, self.users@[pairs@[i as int].1 as int]));
            }
            let a = pairs[i].0;
            let u = &self.users[pairs[i].1];
            let mut full_name = u.first_name.clone();
            full_name.append(" ");
            full_name.append(u.last_name.as_str());
            proof {
                reveal_strlit(" ");
                assert(" "@ =~= seq![' ']);
                assert(full_name@ =~= u.first_name@ + seq![' '] + u.last_name@);
            }
            let mut fields: Vec<String> = Vec::new();
            fields.push(u64_to_string((i as u64) + 1));
            fields.push(u.reg_no.clone());
            fields.push(full_name);
            fields.push(String::from_str(a.hall.name()));
            proof {
                assert(fields.deep_view() =~= spec_row_fields(i as int, a, self.users@[pairs@[i as int].1 as int]));
            }
            match csv_encode_line(&fields) {
                Option::Some(mut b) => {
                    out.append(&mut b);
                },
                Option::None => {
                    return Result::Err(
                        ModuleError::InternalError(String::from_str("CSV encoding failed")),
                    );
                },
            }
        }
        Result::Ok(out)
    }

    /// The CSV export of one stored roster; unknown rosters are rejected.
    pub fn export_roster(&self, roster_id: u128) -> (r: Result<Vec<u8>, ModuleError>)
        requires
            self.wf(),
        ensures
            !self.spec_has_roster(roster_id) ==> (r matches Err(ModuleError::ResourceNotFound(m))
                && m@ == "No active roster found"@),
            r matches Ok(b) ==> self.spec_has_roster(roster_id) && {
                let rows = spec_roster_rows(
                    self.assignments@,
                    self.users@,
                    roster_id,
                    Option::<Hall>::None,
                );
                b@ == spec_export_bytes(rows, rows.len() as int)
            },
    {
        match crate::engine::find_roster_index(&self.rosters, roster_id) {
            Option::None => Result::Err(
                ModuleError::ResourceNotFound(String::from_str("No active roster found")),
            ),
            Option::Some(_) => {
                proof {
                    assert(self.spec_has_roster(roster_id));
                }
                self.export_roster_data_filtered(roster_id, Option::None)
            },
        }
    }

    /// The CSV export of one hall of one stored roster; unknown rosters
    /// are rejected.
    pub fn export_roster_by_hall(&self, roster_id: u128, hall: Hall) -> (r: Result<
        Vec<u8>,
        ModuleError,
    >)
        requires
            self.wf(),
        ensures
            !self.spec_has_roster(roster_id) ==> (r matches Err(ModuleError::ResourceNotFound(m))
                && m@ == "No active roster found"@),
            r matches Ok(b) ==> self.spec_has_roster(roster_id) && {
                let rows = spec_roster_rows(
                    self.assignments@,
                    self.users@,
                    roster_id,
                    Option::Some(hall),
                );
                b@ == spec_export_bytes(rows, rows.len() as int)
            },
    {
        match crate::engine::find_roster_index(&self.rosters, roster_id) {
            Option::None => Result::Err(
                ModuleError::ResourceNotFound(String::from_str("No active roster found")),
            ),
            Option::Some(_) => {
                proof {
                    assert(self.spec_has_roster(roster_id));
                }
                self.export_roster_data_filtered(roster_id, Option::Some(hall))
            },
        }
    }
}

} // verus!
