//! Listings: which records a query selects, and what it means for a
//! sequence of records to be the answer to it.

use crate::model::{Gender, Program, StudentData, StudentDataView, StudentStatus};
use crate::table::Table;
use vstd::prelude::*;

verus! {

/// What a listing can select records by.
#[derive(Debug, Clone, Copy, PartialEq, Eq, Structural)]
pub enum Criterion {
    All,
    InProgram(Program),
    OfGender(Gender),
    WithStatus(StudentStatus),
}

impl Criterion {
    /// The record satisfies the criterion.
    pub open spec fn admits(self, record: StudentDataView) -> bool {
        match self {
            Criterion::All => true,
            Criterion::InProgram(program) => record.data.program == program,
            Criterion::OfGender(gender) => record.data.gender == gender,
            Criterion::WithStatus(status) => record.status == status,
        }
    }

    /// Tests a record against the criterion.
    pub fn accepts(&self, record: &StudentData) -> (accepted: bool)
        ensures
            accepted == self.admits(record@),
    {
        match self {
            Criterion::All => true,
            Criterion::InProgram(program) => record.data.program == *program,
            Criterion::OfGender(gender) => record.data.gender == *gender,
            Criterion::WithStatus(status) => record.status == *status,
        }
    }
}

/// The identifiers of the records of `t` that satisfy `criterion`.
pub open spec fn selected(t: Table, criterion: Criterion) -> Set<u128> {
    t.dom().filter(|id: u128| criterion.admits(t[id]))
}

/// The mathematical values of a sequence of stored records, in order.
pub open spec fn views_of(records: Seq<&StudentData>) -> Seq<StudentDataView> {
    records.map_values(|r: &StudentData| r@)
}

/// The identifiers of a sequence of records, in order.
pub open spec fn ids_of(records: Seq<StudentDataView>) -> Seq<u128> {
    records.map_values(|r: StudentDataView| r.student_id)
}

/// `records` lists the records of `t` that satisfy `criterion`: each of
/// them once, as the table holds it, and nothing else. The order is left
/// open.
pub open spec fn is_listing(t: Table, criterion: Criterion, records: Seq<StudentDataView>) -> bool {
    &&& ids_of(records).no_duplicates()
    &&& ids_of(records).to_set() == selected(t, criterion)
    &&& forall|i: int| 0 <= i < records.len() ==> #[trigger] records[i] == t[records[i].student_id]
}

} // verus!
