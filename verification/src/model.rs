//! The data model: what a student is, and what the table keeps about one.

use vstd::prelude::*;

verus! {

/// Month of birth. The first month is spelled `Jenuary`, which is also
/// its name on the wire.
#[derive(Debug, Clone, Copy, PartialEq, Eq, Structural)]
pub enum Month {
    Jenuary,
    February,
    March,
    April,
    May,
    June,
    July,
    August,
    September,
    October,
    November,
    December,
}

#[derive(Debug, Clone, Copy, PartialEq, Eq, Structural)]
pub enum Gender {
    Male,
    Female,
}

/// The closed set of academic programs a student can be enrolled in.
#[derive(Debug, Clone, Copy, PartialEq, Eq, Structural)]
pub enum Program {
    Mathematics,
    History,
    Economics,
    Literature,
    Physics,
    Biochemistry,
    ComputerScience,
    Architecture,
}

/// Enrollment state. Any status may follow any other.
#[derive(Debug, Clone, Copy, PartialEq, Eq, Structural)]
pub enum StudentStatus {
    Active,
    Expelled,
    Graduated,
}

/// Date of birth. No field is range-checked: `day` is stored as given.
#[derive(Debug, Clone, Copy, PartialEq, Eq, Structural)]
pub struct Dob {
    pub day: u16,
    pub month: Month,
    pub year: u32,
}

/// An instant with the local offset it was observed at: whole seconds and
/// nanoseconds since the Unix epoch, and the offset from UTC in seconds
/// (positive east of Greenwich).
#[derive(Debug, Clone, Copy, PartialEq, Eq, Structural)]
pub struct Timestamp {
    pub seconds: i64,
    pub nanos: u32,
    pub utc_offset: i32,
}

/// The profile of a student: everything a caller supplies.
#[derive(Debug)]
pub struct Student {
    pub first_name: String,
    pub last_name: String,
    pub dob: Dob,
    pub gender: Gender,
    pub email: String,
    pub program: Program,
}

/// The mathematical value of a [`Student`]: text as sequences of characters.
pub struct StudentView {
    pub first_name: Seq<char>,
    pub last_name: Seq<char>,
    pub dob: Dob,
    pub gender: Gender,
    pub email: Seq<char>,
    pub program: Program,
}

impl View for Student {
    type V = StudentView;

    open spec fn view(&self) -> StudentView {
        StudentView {
            first_name: self.first_name@,
            last_name: self.last_name@,
            dob: self.dob,
            gender: self.gender,
            email: self.email@,
            program: self.program,
        }
    }
}

impl Clone for Student {
    fn clone(&self) -> (res: Self)
        ensures
            res == *self,
    {
        Student {
            first_name: self.first_name.clone(),
            last_name: self.last_name.clone(),
            dob: self.dob,
            gender: self.gender,
            email: self.email.clone(),
            program: self.program,
        }
    }
}

impl PartialEq for Student {
    fn eq(&self, other: &Self) -> (equal: bool) {
        self.first_name == other.first_name && self.last_name == other.last_name && self.dob
            == other.dob && self.gender == other.gender && self.email == other.email
            && self.program == other.program
    }
}

impl vstd::std_specs::cmp::PartialEqSpecImpl for Student {
    open spec fn obeys_eq_spec() -> bool {
        true
    }

    /// Two profiles are equal when they say the same, field by field.
    open spec fn eq_spec(&self, other: &Self) -> bool {
        self@ == other@
    }
}

/// A stored record: a profile together with what the table assigned to it.
#[derive(Debug)]
pub struct StudentData {
    /// The key under which the table holds this record.
    pub student_id: u128,
    pub data: Student,
    pub status: StudentStatus,
    pub created_at: Timestamp,
}

/// The mathematical value of a [`StudentData`].
pub struct StudentDataView {
    pub student_id: u128,
    pub data: StudentView,
    pub status: StudentStatus,
    pub created_at: Timestamp,
}

impl View for StudentData {
    type V = StudentDataView;

    open spec fn view(&self) -> StudentDataView {
        StudentDataView {
            student_id: self.student_id,
            data: self.data@,
            status: self.status,
            created_at: self.created_at,
        }
    }
}

impl Clone for StudentData {
    fn clone(&self) -> (res: Self)
        ensures
            res == *self,
    {
        StudentData {
            student_id: self.student_id,
            data: self.data.clone(),
            status: self.status,
            created_at: self.created_at,
        }
    }
}

impl PartialEq for StudentData {
    fn eq(&self, other: &Self) -> (equal: bool) {
        self.student_id == other.student_id && self.data == other.data && self.status
            == other.status && self.created_at == other.created_at
    }
}

impl vstd::std_specs::cmp::PartialEqSpecImpl for StudentData {
    open spec fn obeys_eq_spec() -> bool {
        true
    }

    /// Two records are equal when they say the same, field by field.
    open spec fn eq_spec(&self, other: &Self) -> bool {
        self@ == other@
    }
}

} // verus!
