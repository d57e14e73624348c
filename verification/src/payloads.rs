//! What the requests carry, once decoded: the arguments of the operations
//! they ask for.

use crate::model::{Gender, Program, Student, StudentStatus};
use vstd::prelude::*;

verus! {

/// A request to set the status of one student.
#[derive(Debug)]
pub struct UpdateStatusPayload {
    pub student_id: u128,
    pub status: StudentStatus,
}

/// A request to replace the profile of one student.
#[derive(Debug)]
pub struct UpdateStudentPayload {
    pub student_id: u128,
    pub student_data: Student,
}

/// A request for the students of one program.
#[derive(Debug, Clone, Copy)]
pub struct GetProgram {
    pub program: Program,
}

/// A request for the students of one gender.
#[derive(Debug, Clone, Copy)]
pub struct GetGender {
    pub gender: Gender,
}

/// A request for one student.
#[derive(Debug, Clone, Copy)]
pub struct GetStudent {
    pub id: u128,
}

/// A request for the students that have one status.
#[derive(Debug, Clone, Copy)]
pub struct GetStatus {
    pub status: StudentStatus,
}

} // verus!
