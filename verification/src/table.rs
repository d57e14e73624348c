//! The store as a mathematical object.
//!
//! A table is a finite map from identifier to record. A registry is a
//! table together with every identifier that was ever given to a record.
//! Each operation of the store is described here as a function from the
//! registry before the call to the registry after it; the executable
//! store proves that it follows these functions.

use crate::ids::{fresh_id, id_space};
use crate::model::{StudentDataView, StudentStatus, StudentView, Timestamp};
use vstd::prelude::*;

verus! {

/// The records of a table, each under its identifier.
pub type Table = Map<u128, StudentDataView>;

/// What a store holds: the records, and the identifiers it has given out
/// so far, those of deleted records included.
pub struct Registry {
    pub records: Table,
    pub issued: Set<u128>,
}

/// Every record is filed under the identifier the record itself carries.
pub open spec fn well_keyed(t: Table) -> bool {
    forall|id: u128| t.contains_key(id) ==> (#[trigger] t[id]).student_id == id
}

/// What holds of every registry a store can be in: it has given out
/// finitely many identifiers, fewer than there are; every record has one
/// of them; and the table is well keyed.
pub open spec fn valid(r: Registry) -> bool {
    &&& r.issued.finite()
    &&& r.issued.len() < id_space()
    &&& r.records.dom().finite()
    &&& r.records.dom().subset_of(r.issued)
    &&& well_keyed(r.records)
}

/// The registry of a new store: no record, no identifier given out.
pub open spec fn empty() -> Registry {
    Registry { records: Table::empty(), issued: Set::empty() }
}

/// Some record of the table has this email address. Addresses are compared
/// character by character, so case matters.
pub open spec fn email_in_use(t: Table, email: Seq<char>) -> bool {
    exists|id: u128| t.contains_key(id) && (#[trigger] t[id]).data.email == email
}

/// No two records of the table share an email address.
pub open spec fn emails_unique(t: Table) -> bool {
    forall|a: u128, b: u128|
        t.contains_key(a) && t.contains_key(b) && (#[trigger] t[a]).data.email == (
        #[trigger] t[b]).data.email ==> a == b
}

/// The record that a newly created student gets: active, and stamped with
/// the identifier and the time of creation.
pub open spec fn enrolled(id: u128, student: StudentView, at: Timestamp) -> StudentDataView {
    StudentDataView { student_id: id, data: student, status: StudentStatus::Active, created_at: at }
}

/// The registry after creating `student` with the identifier seed `seed`
/// at time `at`. A student whose email address is in use is not added.
/// Any other gets the first identifier at or after `seed` that was never
/// given out, and that identifier counts as given out from then on.
pub open spec fn create(r: Registry, seed: u128, at: Timestamp, student: StudentView) -> Registry {
    if email_in_use(r.records, student.email) {
        r
    } else {
        let id = fresh_id(r.issued, seed);
        Registry {
            records: r.records.insert(id, enrolled(id, student, at)),
            issued: r.issued.insert(id),
        }
    }
}

/// The registry after replacing the profile of record `id`. Identifier,
/// status and creation time stay; a missing `id` changes nothing.
pub open spec fn update_profile(r: Registry, id: u128, student: StudentView) -> Registry {
    if r.records.contains_key(id) {
        Registry {
            records: r.records.insert(id, StudentDataView { data: student, ..r.records[id] }),
            ..r
        }
    } else {
        r
    }
}

/// The registry after setting the status of record `id`. Nothing else of
/// the record changes; a missing `id` changes nothing.
pub open spec fn update_status(r: Registry, id: u128, status: StudentStatus) -> Registry {
    if r.records.contains_key(id) {
        Registry {
            records: r.records.insert(id, StudentDataView { status: status, ..r.records[id] }),
            ..r
        }
    } else {
        r
    }
}

/// The registry after deleting record `id`. The identifier stays given
/// out; a missing `id` changes nothing.
pub open spec fn delete(r: Registry, id: u128) -> Registry {
    if r.records.contains_key(id) {
        Registry { records: r.records.remove(id), ..r }
    } else {
        r
    }
}

} // verus!
