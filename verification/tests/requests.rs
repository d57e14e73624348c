use student_records::error::StoreError;
use student_records::model::{Dob, Gender, Month, Program, Student, StudentData, StudentStatus, Timestamp};
use student_records::payloads::{
    GetGender, GetProgram, GetStatus, GetStudent, UpdateStatusPayload, UpdateStudentPayload,
};
use student_records::reply::{created, deleted, failure, unknown_student, updated, welcome, CONFLICT, NOT_FOUND, OK};
use student_records::requests::{
    add_student, delete_student, get_all_students, get_student_by_gender, get_student_by_id,
    get_student_by_program, get_student_status, new, update_student, update_student_status,
};
use student_records::store::StudentDb;

fn profile(name: &str, email: &str, program: Program, gender: Gender) -> Student {
    Student {
        first_name: name.to_string(),
        last_name: "Mensah".to_string(),
        dob: Dob { day: 2, month: Month::Jenuary, year: 2003 },
        gender,
        email: email.to_string(),
        program,
    }
}

fn record(id: u128) -> StudentData {
    StudentData {
        student_id: id,
        data: profile("Ada", "ada@x.com", Program::Physics, Gender::Female),
        status: StudentStatus::Active,
        created_at: Timestamp { seconds: 5, nanos: 6, utc_offset: 0 },
    }
}

fn table() -> StudentDb {
    let mut db = StudentDb::new();
    let stamp = Timestamp { seconds: 1_700_000_000, nanos: 0, utc_offset: -18_000 };
    db.create_student_from(1, stamp, profile("Ada", "ada@x.com", Program::Physics, Gender::Female)).unwrap();
    db.create_student_from(2, stamp, profile("Ben", "ben@x.com", Program::History, Gender::Male)).unwrap();
    db.create_student_from(3, stamp, profile("Cyd", "cyd@x.com", Program::Physics, Gender::Male)).unwrap();
    db.update_student_Status(3, StudentStatus::Expelled).unwrap();
    db
}

fn ids(records: &[StudentData]) -> Vec<u128> {
    let mut ids: Vec<u128> = records.iter().map(|r| r.student_id).collect();
    ids.sort();
    ids
}

#[test]
fn status_codes_have_their_usual_values() {
    assert_eq!(OK, 200);
    assert_eq!(NOT_FOUND, 404);
    assert_eq!(CONFLICT, 409);
}

#[test]
fn welcome_greets() {
    let reply = welcome();
    assert_eq!(reply.status, 200);
    assert_eq!(reply.body.message, "WELCOME TO INDIGO");
    let same = new();
    assert_eq!(same.status, 200);
    assert_eq!(same.body.message, "WELCOME TO INDIGO");
}

#[test]
fn failure_names_the_duplicate_email() {
    let reply = failure(&StoreError::DuplicateEmail("a@x.com".to_string()));
    assert_eq!(reply.status, 409);
    assert_eq!(reply.body.message, "USER WITH EMAIL a@x.com exit");
    let empty = failure(&StoreError::DuplicateEmail(String::new()));
    assert_eq!(empty.body.message, "USER WITH EMAIL  exit");
}

#[test]
fn failure_reports_a_missing_student() {
    let reply = failure(&StoreError::NotFound);
    assert_eq!(reply.status, 404);
    assert_eq!(reply.body.message, "STUDENT NOT FOUND");
}

#[test]
fn replies_to_each_outcome() {
    let ok = created(&Ok(record(1)));
    assert_eq!((ok.status, ok.body.message.as_str()), (200, "STUDENT ADDED SUCCESFULLY"));
    let dup = created(&Err(StoreError::DuplicateEmail("ada@x.com".to_string())));
    assert_eq!((dup.status, dup.body.message.as_str()), (409, "USER WITH EMAIL ada@x.com exit"));

    let ok = updated(&Ok(record(1)));
    assert_eq!((ok.status, ok.body.message.as_str()), (200, "STUDENT DATA UPDATED SUCCESFULLY"));
    let missing = updated(&Err(StoreError::NotFound));
    assert_eq!((missing.status, missing.body.message.as_str()), (404, "STUDENT NOT FOUND"));

    let ok = deleted(&Ok(()));
    assert_eq!((ok.status, ok.body.message.as_str()), (200, "STUDENT DATA DELETED"));
    let missing = deleted(&Err(StoreError::NotFound));
    assert_eq!((missing.status, missing.body.message.as_str()), (404, "STUDENT NOT FOUND"));

    let unknown = unknown_student();
    assert_eq!((unknown.status, unknown.body.message.as_str()), (404, "USER DOES NOT EXIST"));
}

#[test]
fn add_student_stores_and_confirms() {
    let mut db = StudentDb::new();
    let reply = add_student(&mut db, profile("Ada", "ada@x.com", Program::Physics, Gender::Female));
    assert_eq!(reply.status, 200);
    assert_eq!(reply.body.message, "STUDENT ADDED SUCCESFULLY");
    let all = get_all_students(&db);
    assert_eq!(all.len(), 1);
    assert_eq!(all[0].data, profile("Ada", "ada@x.com", Program::Physics, Gender::Female));
    assert_eq!(all[0].status, StudentStatus::Active);
}

#[test]
fn add_student_turns_down_a_duplicate_email() {
    let mut db = table();
    let reply = add_student(&mut db, profile("Eve", "ben@x.com", Program::Economics, Gender::Female));
    assert_eq!(reply.status, 409);
    assert_eq!(reply.body.message, "USER WITH EMAIL ben@x.com exit");
    assert_eq!(db.len(), 3);
    assert_eq!(ids(&get_all_students(&db)), vec![1, 2, 3]);
}

#[test]
fn update_student_replaces_the_profile() {
    let mut db = table();
    let payload = UpdateStudentPayload {
        student_id: 2,
        student_data: profile("Benjamin", "benjamin@x.com", Program::Literature, Gender::Male),
    };
    let reply = update_student(&mut db, payload);
    assert_eq!((reply.status, reply.body.message.as_str()), (200, "STUDENT DATA UPDATED SUCCESFULLY"));
    let stored = get_student_by_id(&db, GetStudent { id: 2 }).unwrap();
    assert_eq!(stored.data, profile("Benjamin", "benjamin@x.com", Program::Literature, Gender::Male));
    assert_eq!(stored.created_at, Timestamp { seconds: 1_700_000_000, nanos: 0, utc_offset: -18_000 });
}

#[test]
fn update_student_reports_a_missing_student() {
    let mut db = table();
    let payload = UpdateStudentPayload {
        student_id: 9,
        student_data: profile("Nobody", "nobody@x.com", Program::Literature, Gender::Male),
    };
    let reply = update_student(&mut db, payload);
    assert_eq!((reply.status, reply.body.message.as_str()), (404, "STUDENT NOT FOUND"));
    assert_eq!(ids(&get_all_students(&db)), vec![1, 2, 3]);
    assert!(!db.has_email(&"nobody@x.com".to_string()));
}

#[test]
fn update_student_status_sets_the_status() {
    let mut db = table();
    let reply = update_student_status(&mut db, UpdateStatusPayload { student_id: 1, status: StudentStatus::Graduated });
    assert_eq!((reply.status, reply.body.message.as_str()), (200, "STUDENT DATA UPDATED SUCCESFULLY"));
    assert_eq!(get_student_by_id(&db, GetStudent { id: 1 }).unwrap().status, StudentStatus::Graduated);
    let missing = update_student_status(&mut db, UpdateStatusPayload { student_id: 9, status: StudentStatus::Graduated });
    assert_eq!((missing.status, missing.body.message.as_str()), (404, "STUDENT NOT FOUND"));
}

#[test]
fn delete_student_removes_then_reports_missing() {
    let mut db = table();
    let reply = delete_student(&mut db, 2);
    assert_eq!((reply.status, reply.body.message.as_str()), (200, "STUDENT DATA DELETED"));
    assert_eq!(ids(&get_all_students(&db)), vec![1, 3]);
    let again = delete_student(&mut db, 2);
    assert_eq!((again.status, again.body.message.as_str()), (404, "STUDENT NOT FOUND"));
    assert_eq!(ids(&get_all_students(&db)), vec![1, 3]);
}

#[test]
fn get_student_by_id_copies_the_record_or_says_unknown() {
    let db = table();
    let found = get_student_by_id(&db, GetStudent { id: 3 }).unwrap();
    assert_eq!(found, *db.get_student_by_id(3).unwrap());
    assert_eq!(found.status, StudentStatus::Expelled);
    let missing = get_student_by_id(&db, GetStudent { id: 4 }).unwrap_err();
    assert_eq!((missing.status, missing.body.message.as_str()), (404, "USER DOES NOT EXIST"));
}

#[test]
fn listings_copy_the_selected_records() {
    let db = table();
    assert_eq!(ids(&get_all_students(&db)), vec![1, 2, 3]);
    assert_eq!(ids(&get_student_by_program(&db, GetProgram { program: Program::Physics })), vec![1, 3]);
    assert_eq!(ids(&get_student_by_program(&db, GetProgram { program: Program::Mathematics })), Vec::<u128>::new());
    assert_eq!(ids(&get_student_by_gender(&db, GetGender { gender: Gender::Male })), vec![2, 3]);
    assert_eq!(ids(&get_student_status(&db, GetStatus { status: StudentStatus::Active })), vec![1, 2]);
    assert_eq!(ids(&get_student_status(&db, GetStatus { status: StudentStatus::Expelled })), vec![3]);
    for copy in get_all_students(&db) {
        assert_eq!(copy, *db.get_student_by_id(copy.student_id).unwrap());
    }
}
