//! What a relational store's answers to a user insert mean for the caller:
//! which failures are unique-constraint violations, which constraint was hit,
//! and the user or error that results.
use vstd::prelude::*;

use crate::text::same_text;
use crate::user::{CreateUserError, CreateUserRequest, User, UserRecord};

verus! {

/// The Postgres SQLSTATE of a unique-constraint violation.
pub open spec fn unique_violation_code(code: Seq<char>) -> bool {
    code == "23505"@
}

/// The name of the unique constraint on the user name column.
pub open spec fn username_constraint(name: Seq<char>) -> bool {
    name == "users_username_key"@
}

/// Whether a database error code reports a unique-constraint violation.
pub fn is_unique_constraint_violation(code: Option<&str>) -> (r: bool)
    ensures
        r == (code matches Some(c) && unique_violation_code(c@)),
{
    match code {
        Some(c) => same_text(c, "23505"),
        None => false,
    }
}

/// A failed insert of a user row, as the database reported it.
#[derive(Debug, Clone)]
pub struct InsertFailure {
    /// The database's error code, if the error came from the database.
    pub code: Option<String>,
    /// The violated constraint, if the database named one.
    pub constraint: Option<String>,
    /// The error's text.
    pub detail: String,
}

/// The step of a user write that failed.
#[derive(Debug, Clone)]
pub enum WriteFailure {
    /// The transaction could not be started.
    Begin(String),
    /// The row could not be inserted.
    Insert(InsertFailure),
    /// The transaction could not be committed.
    Commit(String),
}

/// `e` is the error that the failed insert `failure` of the row for `req`
/// means.
pub open spec fn insert_error_for(req: &CreateUserRequest, failure: &InsertFailure, e: CreateUserError) -> bool {
    if failure.code matches Some(c) && unique_violation_code(c@) {
        if failure.constraint matches Some(n) && username_constraint(n@) {
            e matches CreateUserError::DuplicateUserName { username } && username == req.name
        } else {
            e matches CreateUserError::DuplicateEmail { email } && email == req.email
        }
    } else {
        e matches CreateUserError::Unknown(m) && m@ == "failed to save user with username "@
            + req.name@ + " and email "@ + req.email@ + ": "@ + failure.detail@
    }
}

/// The error that a failed insert of the row for `req` means. A unique
/// violation on the user name constraint is a duplicate user name; any other
/// unique violation is reported as a duplicate email address, also where the
/// database does not say which constraint was hit.
pub fn insert_failure_error(req: &CreateUserRequest, failure: &InsertFailure) -> (r:
    CreateUserError)
    ensures
        insert_error_for(req, failure, r),
{
    let code = match &failure.code {
        Some(c) => Some(c.as_str()),
        None => None,
    };
    if is_unique_constraint_violation(code) {
        let on_name = match &failure.constraint {
            Some(n) => same_text(n.as_str(), "users_username_key"),
            None => false,
        };
        if on_name {
            CreateUserError::DuplicateUserName { username: req.name.clone() }
        } else {
            CreateUserError::DuplicateEmail { email: req.email.clone() }
        }
    } else {
        let m = String::from_str("failed to save user with username ").concat(
            req.name.as_str(),
        ).concat(" and email ").concat(req.email.as_str()).concat(": ").concat(
            failure.detail.as_str(),
        );
        CreateUserError::Unknown(m)
    }
}

/// The result of writing the user that `req` describes, with the identifier
/// and creation time generated for it, given how the write went.
pub fn write_result(
    req: &CreateUserRequest,
    id: u128,
    created_at: i64,
    outcome: &Result<(), WriteFailure>,
) -> (r: Result<User, CreateUserError>)
    ensures
        outcome is Ok ==> (r matches Ok(u) && u@ == (UserRecord {
            id,
            username: req.name@,
            email: req.email@,
            created_at,
        })),
        outcome matches Err(WriteFailure::Begin(d)) ==> (r matches Err(
            CreateUserError::Unknown(m),
        ) && m@ == "failed to start Postgres transaction: "@ + d@),
        outcome matches Err(WriteFailure::Insert(f)) ==> (r matches Err(e) && insert_error_for(
            req,
            &f,
            e,
        )),
        outcome matches Err(WriteFailure::Commit(d)) ==> (r matches Err(
            CreateUserError::Unknown(m),
        ) && m@ == "failed to commit Postgres transaction: "@ + d@),
{
    match outcome {
        Ok(()) => Ok(User::new(id, req.name.clone(), req.email.clone(), created_at)),
        Err(WriteFailure::Begin(d)) => Err(
            CreateUserError::Unknown(
                String::from_str("failed to start Postgres transaction: ").concat(d.as_str()),
            ),
        ),
        Err(WriteFailure::Insert(f)) => Err(insert_failure_error(req, f)),
        Err(WriteFailure::Commit(d)) => Err(
            CreateUserError::Unknown(
                String::from_str("failed to commit Postgres transaction: ").concat(d.as_str()),
            ),
        ),
    }
}

} // verus!
