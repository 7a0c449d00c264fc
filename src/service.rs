//! The create-user service: stores the user, then notifies.
use vstd::prelude::*;

use crate::ports::{CrowdSrcService, UserNotifier, UserRepository};
use crate::user::{answer_of, Answer, CreateUserError, CreateUserRequest, User};

verus! {

/// The domain service, composed of a repository and a notifier.
#[derive(Clone)]
pub struct Service<R, N> {
    user_repo: R,
    user_notifier: N,
}

impl<R: UserRepository, N: UserNotifier> Service<R, N> {
    /// The repository the service stores users in.
    pub closed spec fn repo(&self) -> R {
        self.user_repo
    }

    /// The notifier the service tells of created users.
    pub closed spec fn notifier(&self) -> N {
        self.user_notifier
    }

    pub fn new(user_repo: R, user_notifier: N) -> (r: Service<R, N>)
        ensures
            r.repo() == user_repo,
            r.notifier() == user_notifier,
    {
        Service { user_repo, user_notifier }
    }

    pub fn user_repo(&self) -> (r: &R)
        ensures
            *r == self.repo(),
    {
        &self.user_repo
    }

    pub fn user_notifier(&self) -> (r: &N)
        ensures
            *r == self.notifier(),
    {
        &self.user_notifier
    }
}

impl<R: UserRepository, N: UserNotifier> CrowdSrcService for Service<R, N> {
    closed spec fn answers(&self) -> Seq<Answer> {
        self.user_repo.answers()
    }

    /// Asks the repository once, with `req`, and returns its answer unchanged;
    /// the notifier is told of the created user once on success, and not at
    /// all on failure.
    fn create_user(&mut self, req: &CreateUserRequest) -> (r: Result<User, CreateUserError>)
        ensures
            final(self).repo().answers() == old(self).repo().answers().push(answer_of(req, r)),
            r matches Ok(u) ==> final(self).repo().users() == old(self).repo().users().push(u@),
            r is Err ==> final(self).repo().users() == old(self).repo().users(),
            r matches Ok(u) ==> final(self).notifier().notified() == old(
                self,
            ).notifier().notified().push(u@),
            r is Err ==> final(self).notifier() == old(self).notifier(),
    {
        let result = self.user_repo.create_user(req);
        if let Ok(user) = &result {
            self.user_notifier.user_created(user);
        }
        result
    }
}

} // verus!
