use student_records::model::{Dob, Gender, Month, Program, Student, StudentData, StudentStatus, Timestamp};

fn ada() -> Student {
    Student {
        first_name: "Ada".to_string(),
        last_name: "Obi".to_string(),
        dob: Dob { day: 31, month: Month::Jenuary, year: 2000 },
        gender: Gender::Female,
        email: "ada@x.com".to_string(),
        program: Program::ComputerScience,
    }
}

#[test]
fn a_cloned_profile_equals_its_source() {
    let source = ada();
    let copy = source.clone();
    assert_eq!(copy, source);
    assert_eq!(copy.first_name, "Ada");
    assert_eq!(copy.email, "ada@x.com");
}

#[test]
fn profiles_differ_when_one_field_differs() {
    let base = ada();
    let mut other = ada();
    other.first_name = "Ida".to_string();
    assert_ne!(other, base);
    let mut other = ada();
    other.last_name = "Oba".to_string();
    assert_ne!(other, base);
    let mut other = ada();
    other.dob.day = 30;
    assert_ne!(other, base);
    let mut other = ada();
    other.dob.month = Month::February;
    assert_ne!(other, base);
    let mut other = ada();
    other.gender = Gender::Male;
    assert_ne!(other, base);
    let mut other = ada();
    other.email = "Ada@x.com".to_string();
    assert_ne!(other, base);
    let mut other = ada();
    other.program = Program::Architecture;
    assert_ne!(other, base);
}

#[test]
fn records_differ_when_one_field_differs() {
    let base = StudentData {
        student_id: 1,
        data: ada(),
        status: StudentStatus::Active,
        created_at: Timestamp { seconds: 10, nanos: 20, utc_offset: 30 },
    };
    assert_eq!(base.clone(), base);
    let mut other = base.clone();
    other.student_id = 2;
    assert_ne!(other, base);
    let mut other = base.clone();
    other.data.program = Program::History;
    assert_ne!(other, base);
    let mut other = base.clone();
    other.status = StudentStatus::Graduated;
    assert_ne!(other, base);
    let mut other = base.clone();
    other.created_at.nanos = 21;
    assert_ne!(other, base);
}
