//! What to tell a client about the outcome of an operation on the store:
//! a status code and a message. The transport that carries them is not
//! this library's concern.

use crate::error::StoreError;
use crate::model::StudentData;
use vstd::prelude::*;
use vstd::string::StringExecFns;

verus! {

/// The operation succeeded.
pub const OK: u16 = 200;

/// No record has the identifier that was asked for.
pub const NOT_FOUND: u16 = 404;

/// The request cannot be carried out on the table as it is.
pub const CONFLICT: u16 = 409;

/// A message for the client.
#[derive(Debug)]
pub struct Response {
    pub message: String,
}

/// A status code with the message that goes with it.
#[derive(Debug)]
pub struct Reply {
    pub status: u16,
    pub body: Response,
}

/// The status code that reports `error`.
pub open spec fn failure_status(error: StoreError) -> u16 {
    match error {
        StoreError::DuplicateEmail(_) => CONFLICT,
        StoreError::NotFound => NOT_FOUND,
    }
}

/// The message that reports `error`. A duplicate email address is named
/// in it.
pub open spec fn failure_text(error: StoreError) -> Seq<char> {
    match error {
        StoreError::DuplicateEmail(email) => "USER WITH EMAIL "@ + email@ + " exit"@,
        StoreError::NotFound => "STUDENT NOT FOUND"@,
    }
}

/// The reply to a request that found the service.
pub fn welcome() -> (reply: Reply)
    ensures
        reply.status == OK,
        reply.body.message@ == "WELCOME TO INDIGO"@,
{
    Reply { status: OK, body: Response { message: "WELCOME TO INDIGO".to_string() } }
}

/// The reply that reports `error`.
pub fn failure(error: &StoreError) -> (reply: Reply)
    ensures
        reply.status == failure_status(*error),
        reply.body.message@ == failure_text(*error),
{
    match error {
        StoreError::DuplicateEmail(email) => {
            let mut message = "USER WITH EMAIL ".to_string();
            message.append(email.as_str());
            message.append(" exit");
            Reply { status: CONFLICT, body: Response { message } }
        },
        StoreError::NotFound => Reply {
            status: NOT_FOUND,
            body: Response { message: "STUDENT NOT FOUND".to_string() },
        },
    }
}

/// The reply to a request to create a student.
pub fn created(result: &Result<StudentData, StoreError>) -> (reply: Reply)
    ensures
        match *result {
            Ok(_) => reply.status == OK && reply.body.message@ == "STUDENT ADDED SUCCESFULLY"@,
            Err(error) => reply.status == failure_status(error) && reply.body.message@
                == failure_text(error),
        },
{
    match result {
        Ok(_) => Reply {
            status: OK,
            body: Response { message: "STUDENT ADDED SUCCESFULLY".to_string() },
        },
        Err(error) => failure(error),
    }
}

/// The reply to a request to update a profile or a status.
pub fn updated(result: &Result<StudentData, StoreError>) -> (reply: Reply)
    ensures
        match *result {
            Ok(_) => reply.status == OK && reply.body.message@
                == "STUDENT DATA UPDATED SUCCESFULLY"@,
            Err(error) => reply.status == failure_status(error) && reply.body.message@
                == failure_text(error),
        },
{
    match result {
        Ok(_) => Reply {
            status: OK,
            body: Response { message: "STUDENT DATA UPDATED SUCCESFULLY".to_string() },
        },
        Err(error) => failure(error),
    }
}

/// The reply to a request to delete a student.
pub fn deleted(result: &Result<(), StoreError>) -> (reply: Reply)
    ensures
        match *result {
            Ok(_) => reply.status == OK && reply.body.message@ == "STUDENT DATA DELETED"@,
            Err(error) => reply.status == failure_status(error) && reply.body.message@
                == failure_text(error),
        },
{
    match result {
        Ok(_) => Reply { status: OK, body: Response { message: "STUDENT DATA DELETED".to_string() } },
        Err(error) => failure(error),
    }
}

/// The reply to a request for a student that is not in the table.
pub fn unknown_student() -> (reply: Reply)
    ensures
        reply.status == NOT_FOUND,
        reply.body.message@ == "USER DOES NOT EXIST"@,
{
    Reply { status: NOT_FOUND, body: Response { message: "USER DOES NOT EXIST".to_string() } }
}

} // verus!
