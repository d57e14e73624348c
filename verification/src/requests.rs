//! The requests a client can make, each as a function from the store and
//! the decoded request to what the client is told. Whoever calls these
//! holds the store exclusively for the length of the call.

use crate::model::{Student, StudentData, StudentDataView, Timestamp};
use crate::payloads::{
    GetGender, GetProgram, GetStatus, GetStudent, UpdateStatusPayload, UpdateStudentPayload,
};
use crate::query::{is_listing, selected, views_of, Criterion};
use crate::reply::{
    created, deleted, unknown_student, updated, welcome, Reply, CONFLICT, NOT_FOUND, OK,
};
use crate::store::StudentDb;
use crate::table::{
    create, delete, email_in_use, emails_unique, update_profile, update_status, valid,
};
use vstd::prelude::*;

verus! {

/// The mathematical values of a sequence of records, in order.
pub open spec fn record_views(records: Seq<StudentData>) -> Seq<StudentDataView> {
    records.map_values(|r: StudentData| r@)
}

/// Copies the records that a listing refers to.
fn owned(records: Vec<&StudentData>) -> (copies: Vec<StudentData>)
    ensures
        record_views(copies@) == views_of(records@),
{
    let mut copies: Vec<StudentData> = Vec::new();
    let mut i: usize = 0;
    while i < records.len()
        invariant
            i <= records.len(),
            copies.len() == i,
            forall|j: int| 0 <= j < i ==> (#[trigger] copies[j])@ == records[j]@,
        decreases records.len() - i,
    {
        copies.push(records[i].clone());
        i += 1;
    }
    assert(record_views(copies@) =~= views_of(records@));
    copies
}

/// Greets a client that asks for nothing.
pub fn new() -> (reply: Reply)
    ensures
        reply.status == OK,
        reply.body.message@ == "WELCOME TO INDIGO"@,
{
    welcome()
}

/// Adds a student, with a random identifier seed and the current local
/// time. A student whose email address is already stored is turned down,
/// and the table stays as it was; any other is stored as one new, active
/// record under an identifier that was never given out before.
pub fn add_student(db: &mut StudentDb, student: Student) -> (reply: Reply)
    ensures
        valid(final(db)@),
        exists|seed: u128, at: Timestamp|
            final(db)@ == #[trigger] create(old(db)@, seed, at, student@),
        emails_unique(old(db)@.records) ==> emails_unique(final(db)@.records),
        if email_in_use(old(db)@.records, student@.email) {
            &&& *final(db) == *old(db)
            &&& reply.status == CONFLICT
            &&& reply.body.message@ == "USER WITH EMAIL "@ + student@.email + " exit"@
        } else {
            &&& final(db)@.records.dom().len() == old(db)@.records.dom().len() + 1
            &&& reply.status == OK
            &&& reply.body.message@ == "STUDENT ADDED SUCCESFULLY"@
        },
{
    let result = db.create_student(student);
    created(&result)
}

/// Replaces the profile of a student. When the student is not in the
/// table, the table stays as it was.
pub fn update_student(db: &mut StudentDb, student: UpdateStudentPayload) -> (reply: Reply)
    ensures
        valid(final(db)@),
        final(db)@ == update_profile(old(db)@, student.student_id, student.student_data@),
        if old(db)@.records.contains_key(student.student_id) {
            reply.status == OK && reply.body.message@ == "STUDENT DATA UPDATED SUCCESFULLY"@
        } else {
            &&& *final(db) == *old(db)
            &&& reply.status == NOT_FOUND
            &&& reply.body.message@ == "STUDENT NOT FOUND"@
        },
{
    let result = db.update_student(student.student_id, student.student_data);
    updated(&result)
}

/// Sets the status of a student. When the student is not in the table,
/// the table stays as it was.
pub fn update_student_status(db: &mut StudentDb, student: UpdateStatusPayload) -> (reply: Reply)
    ensures
        valid(final(db)@),
        final(db)@ == update_status(old(db)@, student.student_id, student.status),
        if old(db)@.records.contains_key(student.student_id) {
            reply.status == OK && reply.body.message@ == "STUDENT DATA UPDATED SUCCESFULLY"@
        } else {
            &&& *final(db) == *old(db)
            &&& reply.status == NOT_FOUND
            &&& reply.body.message@ == "STUDENT NOT FOUND"@
        },
{
    let result = db.update_student_Status(student.student_id, student.status);
    updated(&result)
}

/// Deletes a student. When the student is not in the table, the table
/// stays as it was.
pub fn delete_student(db: &mut StudentDb, student_id: u128) -> (reply: Reply)
    ensures
        valid(final(db)@),
        final(db)@ == delete(old(db)@, student_id),
        if old(db)@.records.contains_key(student_id) {
            reply.status == OK && reply.body.message@ == "STUDENT DATA DELETED"@
        } else {
            &&& *final(db) == *old(db)
            &&& reply.status == NOT_FOUND
            &&& reply.body.message@ == "STUDENT NOT FOUND"@
        },
{
    let result = db.delete_student(student_id);
    deleted(&result)
}

/// The students that have the status asked for.
pub fn get_student_status(db: &StudentDb, status: GetStatus) -> (records: Vec<StudentData>)
    ensures
        is_listing(db@.records, Criterion::WithStatus(status.status), record_views(records@)),
        records@.len() == selected(db@.records, Criterion::WithStatus(status.status)).len(),
{
    owned(db.get_student_Status(status.status))
}

/// The student asked for, or the reply that says there is none.
pub fn get_student_by_id(db: &StudentDb, student_id: GetStudent) -> (res: Result<
    StudentData,
    Reply,
>)
    ensures
        match res {
            Ok(record) => db@.records.contains_key(student_id.id) && record@
                == db@.records[student_id.id],
            Err(reply) => {
                &&& !db@.records.contains_key(student_id.id)
                &&& reply.status == NOT_FOUND
                &&& reply.body.message@ == "USER DOES NOT EXIST"@
            },
        },
{
    match db.get_student_by_id(student_id.id) {
        Ok(record) => Ok(record.clone()),
        Err(_) => Err(unknown_student()),
    }
}

/// The students of the program asked for.
pub fn get_student_by_program(db: &StudentDb, program: GetProgram) -> (records: Vec<StudentData>)
    ensures
        is_listing(db@.records, Criterion::InProgram(program.program), record_views(records@)),
        records@.len() == selected(db@.records, Criterion::InProgram(program.program)).len(),
{
    owned(db.get_student_by_program(program.program))
}

/// The students of the gender asked for.
pub fn get_student_by_gender(db: &StudentDb, gender: GetGender) -> (records: Vec<StudentData>)
    ensures
        is_listing(db@.records, Criterion::OfGender(gender.gender), record_views(records@)),
        records@.len() == selected(db@.records, Criterion::OfGender(gender.gender)).len(),
{
    owned(db.get_student_by_gender(gender.gender))
}

/// Every student in the table.
pub fn get_all_students(db: &StudentDb) -> (records: Vec<StudentData>)
    ensures
        is_listing(db@.records, Criterion::All, record_views(records@)),
        records@.len() == db@.records.dom().len(),
{
    owned(db.get_all_students())
}

} // verus!
