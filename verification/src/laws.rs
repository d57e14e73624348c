//! What holds across operations of the store.
//!
//! Each statement is about the registry functions of [`crate::table`] and
//! the listings of [`crate::query`], which are what the operations of
//! [`crate::store::StudentDb`] are proved to compute.

use crate::ids::{fresh_id, lemma_fresh_id};
use crate::model::{StudentDataView, StudentStatus, StudentView, Timestamp};
use crate::query::{ids_of, is_listing, selected, Criterion};
use crate::table::{
    create, delete, email_in_use, emails_unique, empty, update_profile, update_status, valid,
    well_keyed, Registry, Table,
};
use vstd::prelude::*;

verus! {

/// One call that changes the store, with its arguments. A create call
/// carries the identifier seed and the time it runs with.
pub enum Step {
    Create { seed: u128, at: Timestamp, student: StudentView },
    UpdateProfile { id: u128, student: StudentView },
    UpdateStatus { id: u128, status: StudentStatus },
    Delete { id: u128 },
}

/// The registry after one call.
pub open spec fn apply(r: Registry, step: Step) -> Registry {
    match step {
        Step::Create { seed, at, student } => create(r, seed, at, student),
        Step::UpdateProfile { id, student } => update_profile(r, id, student),
        Step::UpdateStatus { id, status } => update_status(r, id, status),
        Step::Delete { id } => delete(r, id),
    }
}

/// The registry after a sequence of calls, made one after another.
pub open spec fn run(r: Registry, steps: Seq<Step>) -> Registry
    decreases steps.len(),
{
    if steps.len() == 0 {
        r
    } else {
        apply(run(r, steps.drop_last()), steps.last())
    }
}

/// Every call keeps the table finite and well keyed, keeps every record
/// under an identifier that was given out, and takes no identifier back.
pub proof fn law_steps_keep_the_table_in_order(r: Registry, step: Step)
    requires
        r.issued.finite(),
        r.records.dom().finite(),
        r.records.dom().subset_of(r.issued),
        well_keyed(r.records),
    ensures
        apply(r, step).issued.finite(),
        apply(r, step).records.dom().finite(),
        apply(r, step).records.dom().subset_of(apply(r, step).issued),
        well_keyed(apply(r, step).records),
        r.issued.subset_of(apply(r, step).issued),
{
}

/// Creating a student never makes two records share an email address.
pub proof fn law_create_keeps_emails_unique(
    r: Registry,
    seed: u128,
    at: Timestamp,
    student: StudentView,
)
    requires
        emails_unique(r.records),
    ensures
        emails_unique(create(r, seed, at, student).records),
{
    let after = create(r, seed, at, student).records;
    if !email_in_use(r.records, student.email) {
        let t = r.records;
        let id = fresh_id(r.issued, seed);
        assert forall|a: u128, b: u128|
            after.contains_key(a) && after.contains_key(b) && (#[trigger] after[a]).data.email == (
            #[trigger] after[b]).data.email implies a == b by {
            if a != id && b != id {
                assert(t[a].data.email == t[b].data.email);
            } else if a != id {
                assert(t.contains_key(a) && t[a].data.email == student.email);
            } else if b != id {
                assert(t.contains_key(b) && t[b].data.email == student.email);
            }
        }
    }
}

/// Deleting a record and changing a status keep email addresses unique.
/// Replacing a profile keeps them unique when no other record has the
/// new email address; the update itself does not look.
pub proof fn law_emails_stay_unique(
    r: Registry,
    id: u128,
    student: StudentView,
    status: StudentStatus,
)
    requires
        emails_unique(r.records),
    ensures
        emails_unique(delete(r, id).records),
        emails_unique(update_status(r, id, status).records),
        (forall|k: u128| r.records.contains_key(k) && k != id ==> (#[trigger] r.records[k]).data.email
            != student.email) ==> emails_unique(update_profile(r, id, student).records),
{
    let t = r.records;
    let deleted = delete(r, id).records;
    assert forall|a: u128, b: u128|
        deleted.contains_key(a) && deleted.contains_key(b) && (#[trigger] deleted[a]).data.email
            == (#[trigger] deleted[b]).data.email implies a == b by {
        assert(t[a].data.email == t[b].data.email);
    }
    let restated = update_status(r, id, status).records;
    assert forall|a: u128, b: u128|
        restated.contains_key(a) && restated.contains_key(b) && (#[trigger] restated[a]).data.email
            == (#[trigger] restated[b]).data.email implies a == b by {
        assert(t[a].data.email == t[b].data.email);
    }
    if forall|k: u128| t.contains_key(k) && k != id ==> (#[trigger] t[k]).data.email
        != student.email {
        let replaced = update_profile(r, id, student).records;
        assert forall|a: u128, b: u128|
            replaced.contains_key(a) && replaced.contains_key(b) && (
            #[trigger] replaced[a]).data.email == (#[trigger] replaced[b]).data.email implies a
            == b by {
            if a != id && b != id {
                assert(t[a].data.email == t[b].data.email);
            } else if a != id {
                assert(t[a].data.email != student.email);
            } else if b != id {
                assert(t[b].data.email != student.email);
            }
        }
    }
}

/// However many students are created one after another in a new store,
/// with records deleted and statuses changed in between at will, no two
/// records of the table ever share an email address. A sequence of calls
/// includes each of its beginnings, so this holds at every moment.
pub proof fn law_emails_are_unique_in_every_run(steps: Seq<Step>)
    requires
        forall|i: int| 0 <= i < steps.len() ==> !(#[trigger] steps[i] is UpdateProfile),
    ensures
        emails_unique(run(empty(), steps).records),
    decreases steps.len(),
{
    if steps.len() > 0 {
        let before = run(empty(), steps.drop_last());
        assert forall|i: int| 0 <= i < steps.drop_last().len() implies !(
        #[trigger] steps.drop_last()[i] is UpdateProfile) by {
            assert(steps.drop_last()[i] == steps[i]);
        }
        law_emails_are_unique_in_every_run(steps.drop_last());
        match steps.last() {
            Step::Create { seed, at, student } => {
                law_create_keeps_emails_unique(before, seed, at, student);
            },
            Step::UpdateProfile { id, student } => {
                assert(steps[steps.len() - 1] is UpdateProfile);
            },
            Step::UpdateStatus { id, status } => {
                law_emails_stay_unique(before, id, before.records[id].data, status);
            },
            Step::Delete { id } => {
                law_emails_stay_unique(before, id, before.records[id].data, StudentStatus::Active);
            },
        }
    }
}

/// Creating a student whose email address is in use leaves everything as
/// it was, and so the number of records.
pub proof fn law_create_with_used_email_changes_nothing(
    r: Registry,
    seed: u128,
    at: Timestamp,
    student: StudentView,
)
    requires
        email_in_use(r.records, student.email),
    ensures
        create(r, seed, at, student) == r,
        create(r, seed, at, student).records.dom().len() == r.records.dom().len(),
{
}

/// Creating a student whose email address is not in use adds exactly one
/// record, under an identifier that was never given out, and leaves every
/// other record as it was. A seed that was never given out is that
/// identifier.
pub proof fn law_create_adds_one_record(
    r: Registry,
    seed: u128,
    at: Timestamp,
    student: StudentView,
)
    requires
        valid(r),
        !email_in_use(r.records, student.email),
    ensures
        !r.issued.contains(fresh_id(r.issued, seed)),
        !r.records.contains_key(fresh_id(r.issued, seed)),
        !r.issued.contains(seed) ==> fresh_id(r.issued, seed) == seed,
        create(r, seed, at, student).records.dom() == r.records.dom().insert(
            fresh_id(r.issued, seed),
        ),
        create(r, seed, at, student).records.dom().len() == r.records.dom().len() + 1,
        forall|id: u128|
            r.records.contains_key(id) ==> #[trigger] create(r, seed, at, student).records[id]
                == r.records[id],
{
    lemma_fresh_id(r.issued, seed);
}

/// No call takes back an identifier that was given out.
pub proof fn law_issued_identifiers_stay_issued(r: Registry, steps: Seq<Step>)
    ensures
        r.issued.subset_of(run(r, steps).issued),
    decreases steps.len(),
{
    if steps.len() > 0 {
        law_issued_identifiers_stay_issued(r, steps.drop_last());
    }
}

/// An identifier is given out once. Whatever calls are made after an
/// identifier was given to a record, whether that record is still in the
/// table or not, a student created afterwards gets another identifier.
pub proof fn law_identifiers_are_never_reused(
    r: Registry,
    steps: Seq<Step>,
    seed: u128,
    at: Timestamp,
    student: StudentView,
)
    requires
        valid(run(r, steps)),
        !email_in_use(run(r, steps).records, student.email),
    ensures
        !r.issued.contains(fresh_id(run(r, steps).issued, seed)),
        create(run(r, steps), seed, at, student).records.contains_key(
            fresh_id(run(r, steps).issued, seed),
        ),
{
    law_issued_identifiers_stay_issued(r, steps);
    lemma_fresh_id(run(r, steps).issued, seed);
}

/// Neither update changes which identifiers are in the table, nor the
/// identifier or the creation time of any record.
pub proof fn law_updates_keep_identity(
    r: Registry,
    id: u128,
    student: StudentView,
    status: StudentStatus,
)
    ensures
        update_profile(r, id, student).records.dom() == r.records.dom(),
        update_status(r, id, status).records.dom() == r.records.dom(),
        forall|k: u128|
            r.records.contains_key(k) ==> {
                &&& (#[trigger] update_profile(r, id, student).records[k]).student_id
                    == r.records[k].student_id
                &&& update_profile(r, id, student).records[k].created_at == r.records[k].created_at
            },
        forall|k: u128|
            r.records.contains_key(k) ==> {
                &&& (#[trigger] update_status(r, id, status).records[k]).student_id
                    == r.records[k].student_id
                &&& update_status(r, id, status).records[k].created_at == r.records[k].created_at
            },
{
    assert(update_profile(r, id, student).records.dom() =~= r.records.dom());
    assert(update_status(r, id, status).records.dom() =~= r.records.dom());
}

/// However many profile and status updates follow one another, every
/// record keeps the identifier and the creation time it had.
pub proof fn law_runs_of_updates_keep_identity(r: Registry, steps: Seq<Step>)
    requires
        forall|i: int|
            0 <= i < steps.len() ==> (#[trigger] steps[i] is UpdateProfile) || steps[i]
                is UpdateStatus,
    ensures
        run(r, steps).records.dom() == r.records.dom(),
        forall|k: u128|
            r.records.contains_key(k) ==> {
                &&& (#[trigger] run(r, steps).records[k]).student_id == r.records[k].student_id
                &&& run(r, steps).records[k].created_at == r.records[k].created_at
            },
    decreases steps.len(),
{
    if steps.len() > 0 {
        let before = run(r, steps.drop_last());
        assert forall|i: int| 0 <= i < steps.drop_last().len() implies (
        #[trigger] steps.drop_last()[i] is UpdateProfile) || steps.drop_last()[i]
            is UpdateStatus by {
            assert(steps.drop_last()[i] == steps[i]);
        }
        law_runs_of_updates_keep_identity(r, steps.drop_last());
        assert(steps[steps.len() - 1] is UpdateProfile || steps[steps.len() - 1] is UpdateStatus);
        match steps.last() {
            Step::UpdateProfile { id, student } => {
                law_updates_keep_identity(before, id, student, StudentStatus::Active);
            },
            Step::UpdateStatus { id, status } => {
                law_updates_keep_identity(before, id, before.records[id].data, status);
            },
            _ => {},
        }
    }
}

/// An update touches one record only, and of that record only what it is
/// for: the profile update keeps the status, the status update keeps the
/// profile.
pub proof fn law_updates_change_one_field(
    r: Registry,
    id: u128,
    student: StudentView,
    status: StudentStatus,
)
    requires
        r.records.contains_key(id),
    ensures
        update_profile(r, id, student).records[id].data == student,
        update_profile(r, id, student).records[id].status == r.records[id].status,
        update_status(r, id, status).records[id].status == status,
        update_status(r, id, status).records[id].data == r.records[id].data,
        forall|k: u128|
            k != id ==> #[trigger] update_profile(r, id, student).records[k] == r.records[k],
        forall|k: u128|
            k != id ==> #[trigger] update_status(r, id, status).records[k] == r.records[k],
{
}

/// A student that was just created is found under the identifier the
/// record was given, with the profile that was handed in and status
/// `Active`.
pub proof fn law_create_then_get(r: Registry, seed: u128, at: Timestamp, student: StudentView)
    requires
        !email_in_use(r.records, student.email),
    ensures
        ({
            let id = fresh_id(r.issued, seed);
            let after = create(r, seed, at, student).records;
            &&& after.contains_key(id)
            &&& after[id].student_id == id
            &&& after[id].data == student
            &&& after[id].status == StudentStatus::Active
            &&& after[id].created_at == at
        }),
{
}

/// A listing is exact: each of its records is a record of the table that
/// satisfies the criterion; each record of the table that satisfies the
/// criterion is in it; no record that fails the criterion is in it; no
/// record is in it twice; and it has as many records as the table has
/// that satisfy the criterion, which for `Criterion::All` is the size of
/// the table.
pub proof fn law_listing_is_exact(t: Table, criterion: Criterion, records: Seq<StudentDataView>)
    requires
        is_listing(t, criterion, records),
    ensures
        forall|i: int|
            0 <= i < records.len() ==> {
                &&& t.contains_key((#[trigger] records[i]).student_id)
                &&& t[records[i].student_id] == records[i]
                &&& criterion.admits(records[i])
            },
        forall|id: u128|
            t.contains_key(id) && criterion.admits(t[id]) ==> records.contains(#[trigger] t[id]),
        forall|id: u128|
            t.contains_key(id) && !criterion.admits(t[id]) ==> !records.contains(#[trigger] t[id]),
        forall|i: int, j: int|
            0 <= i < j < records.len() ==> (#[trigger] records[i]).student_id != (
            #[trigger] records[j]).student_id,
        records.len() == selected(t, criterion).len(),
        criterion == Criterion::All ==> records.len() == t.dom().len(),
{
    let ids = ids_of(records);
    assert forall|i: int| 0 <= i < records.len() implies t.contains_key(
        (#[trigger] records[i]).student_id,
    ) && t[records[i].student_id] == records[i] && criterion.admits(records[i]) by {
        assert(ids[i] == records[i].student_id);
        assert(ids.to_set().contains(ids[i]));
    }
    assert forall|id: u128| t.contains_key(id) && criterion.admits(t[id]) implies records.contains(
        #[trigger] t[id],
    ) by {
        assert(selected(t, criterion).contains(id));
        assert(ids.to_set().contains(id));
        let i = choose|i: int| 0 <= i < ids.len() && ids[i] == id;
        assert(records[i].student_id == id);
    }
    assert forall|id: u128| t.contains_key(id) && !criterion.admits(t[id]) implies !records.contains(
        #[trigger] t[id],
    ) by {
        if records.contains(t[id]) {
            let i = choose|i: int| 0 <= i < records.len() && records[i] == t[id];
            assert(criterion.admits(records[i]));
        }
    }
    assert forall|i: int, j: int| 0 <= i < j < records.len() implies (
    #[trigger] records[i]).student_id != (#[trigger] records[j]).student_id by {
        assert(ids[i] != ids[j]);
    }
    ids.unique_seq_to_set();
    if criterion == Criterion::All {
        assert(selected(t, criterion) =~= t.dom());
    }
}

/// Deleting an identifier that is not in the table leaves everything as
/// it was. Deleting one that is in it removes that record, makes the
/// table smaller by exactly one, and leaves every other record as it was.
pub proof fn law_delete(r: Registry, id: u128)
    requires
        r.records.dom().finite(),
    ensures
        !r.records.contains_key(id) ==> delete(r, id) == r,
        r.records.contains_key(id) ==> delete(r, id).records.dom().len() == r.records.dom().len()
            - 1,
        !delete(r, id).records.contains_key(id),
        forall|k: u128|
            k != id ==> (delete(r, id).records.contains_key(k) <==> r.records.contains_key(k)),
        forall|k: u128|
            k != id && r.records.contains_key(k) ==> #[trigger] delete(r, id).records[k]
                == r.records[k],
{
}

/// Updating the profile or the status of an identifier that is not in the
/// table leaves everything as it was.
pub proof fn law_update_of_missing_changes_nothing(
    r: Registry,
    id: u128,
    student: StudentView,
    status: StudentStatus,
)
    requires
        !r.records.contains_key(id),
    ensures
        update_profile(r, id, student) == r,
        update_status(r, id, status) == r,
{
}

} // verus!
