//! The contracts between the create-user service and the outside world:
//! storage of users, notification of their creation, and the service itself.
use vstd::prelude::*;

use crate::store::{email_taken, name_taken};
use crate::user::{answer_of, Answer, CreateUserError, CreateUserRequest, User, UserRecord};

verus! {

/// A log of answered creation requests, oldest first.
pub type AnswerLog = Seq<Answer>;

/// The rows of stored users, oldest first.
pub type UserRows = Seq<UserRecord>;

/// The public API of the user domain.
pub trait CrowdSrcService {
    /// Every request this service answered, with its answer, oldest first.
    spec fn answers(&self) -> AnswerLog;

    /// Creates the user that `req` describes. A created user carries the
    /// requested name and address; a duplicate error names the requested
    /// value that collided.
    fn create_user(&mut self, req: &CreateUserRequest) -> (r: Result<User, CreateUserError>)
        ensures
            final(self).answers() == old(self).answers().push(answer_of(req, r)),
            r matches Ok(u) ==> u.username@ == req.name@ && u.email_addr@ == req.email@,
            r matches Err(CreateUserError::DuplicateUserName { username }) ==> username@
                == req.name@,
            r matches Err(CreateUserError::DuplicateEmail { email }) ==> email@ == req.email@,
    ;
}

/// A store of users that keeps user names and email addresses unique.
pub trait UserRepository {
    /// The stored users, oldest first.
    spec fn users(&self) -> UserRows;

    /// Every request this repository answered, with its answer, oldest first.
    spec fn answers(&self) -> AnswerLog;

    /// Persists a new user with a fresh identifier and creation time, checking
    /// and inserting atomically.
    /// - A created user carries the requested name and address, neither of
    ///   which was stored before, and is stored after the others.
    /// - Any failure stores nothing.
    /// - A duplicate user name is reported only where the name is stored.
    /// - A duplicate email address names the requested address; it is
    ///   reported where the address is stored, and is also the fallback where
    ///   a store cannot tell which of the two collided.
    fn create_user(&mut self, req: &CreateUserRequest) -> (r: Result<User, CreateUserError>)
        ensures
            final(self).answers() == old(self).answers().push(answer_of(req, r)),
            r matches Ok(u) ==> u.username@ == req.name@ && u.email_addr@ == req.email@
                && !email_taken(old(self).users(), req.email@) && !name_taken(
                old(self).users(),
                req.name@,
            ) && final(self).users() == old(self).users().push(u@),
            r is Err ==> final(self).users() == old(self).users(),
            r matches Err(CreateUserError::DuplicateUserName { username }) ==> username@
                == req.name@ && name_taken(old(self).users(), req.name@),
            r matches Err(CreateUserError::DuplicateEmail { email }) ==> email@ == req.email@ && (
            email_taken(old(self).users(), req.email@) || name_taken(old(self).users(), req.name@)),
    ;
}

/// Side effects that follow the creation of a user. A notifier swallows its
/// own failures.
pub trait UserNotifier {
    /// The users this notifier was told of, oldest first.
    spec fn notified(&self) -> Seq<UserRecord>;

    fn user_created(&mut self, user: &User)
        ensures
            final(self).notified() == old(self).notified().push(user@),
    ;
}

} // verus!
