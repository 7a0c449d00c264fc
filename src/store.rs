//! A user table with unique identifiers, user names and email addresses, and
//! a repository that keeps one in memory.
use vstd::prelude::*;

use crate::ids::{now_micros, random_user_id};
use crate::ports::UserRepository;
use crate::user::{answer_of, Answer, CreateUserError, CreateUserRequest, User, UserRecord};

verus! {

/// Some row of `rows` has the email address `email`.
pub open spec fn email_taken(rows: Seq<UserRecord>, email: Seq<char>) -> bool {
    exists|k: int| 0 <= k < rows.len() && (#[trigger] rows[k]).email == email
}

/// Some row of `rows` has the user name `name`.
pub open spec fn name_taken(rows: Seq<UserRecord>, name: Seq<char>) -> bool {
    exists|k: int| 0 <= k < rows.len() && (#[trigger] rows[k]).username == name
}

/// Some row of `rows` has the identifier `id`.
pub open spec fn id_taken(rows: Seq<UserRecord>, id: u128) -> bool {
    exists|k: int| 0 <= k < rows.len() && (#[trigger] rows[k]).id == id
}

/// No two rows share an identifier, a user name or an email address.
pub open spec fn unique_rows(rows: Seq<UserRecord>) -> bool {
    forall|i: int, j: int|
        0 <= i < rows.len() && 0 <= j < rows.len() && i != j ==> (#[trigger] rows[i]).id
            != (#[trigger] rows[j]).id && rows[i].username != rows[j].username && rows[i].email
            != rows[j].email
}

/// The unique constraint that an insert runs into.
#[derive(Debug, Clone, Copy, PartialEq, Eq)]
pub enum Conflict {
    Email,
    UserName,
    Id,
}

/// The constraint that inserting `row` into `rows` violates, if any. The email
/// address is checked first, then the user name, then the identifier.
pub open spec fn insert_conflict(rows: Seq<UserRecord>, row: UserRecord) -> Option<Conflict> {
    if email_taken(rows, row.email) {
        Some(Conflict::Email)
    } else if name_taken(rows, row.username) {
        Some(Conflict::UserName)
    } else if id_taken(rows, row.id) {
        Some(Conflict::Id)
    } else {
        None
    }
}

/// The rows after an attempt to insert `row`: a violated constraint leaves
/// them as they were.
pub open spec fn after_insert(rows: Seq<UserRecord>, row: UserRecord) -> Seq<UserRecord> {
    if insert_conflict(rows, row) is None {
        rows.push(row)
    } else {
        rows
    }
}

/// Inserting keeps identifiers, user names and email addresses unique.
pub proof fn lemma_insert_keeps_rows_unique(rows: Seq<UserRecord>, row: UserRecord)
    requires
        unique_rows(rows),
    ensures
        unique_rows(after_insert(rows, row)),
{
    if insert_conflict(rows, row) is None {
        let after = rows.push(row);
        assert forall|i: int, j: int|
            0 <= i < after.len() && 0 <= j < after.len() && i != j implies (#[trigger] after[i]).id
                != (#[trigger] after[j]).id && after[i].username != after[j].username
                && after[i].email != after[j].email by {
            if i == rows.len() {
                assert(after[j] == rows[j]);
            } else if j == rows.len() {
                assert(after[i] == rows[i]);
            }
        }
    }
}

/// Once a user name is stored, inserting it again (with an email address that
/// is not stored) is refused as a duplicate user name and stores nothing.
pub proof fn lemma_stored_name_is_refused(rows: Seq<UserRecord>, row: UserRecord)
    requires
        name_taken(rows, row.username),
        !email_taken(rows, row.email),
    ensures
        insert_conflict(rows, row) == Some(Conflict::UserName),
        after_insert(rows, row) == rows,
{
}

/// Once an email address is stored, inserting it again is refused as a
/// duplicate email address and stores nothing.
pub proof fn lemma_stored_email_is_refused(rows: Seq<UserRecord>, row: UserRecord)
    requires
        email_taken(rows, row.email),
    ensures
        insert_conflict(rows, row) == Some(Conflict::Email),
        after_insert(rows, row) == rows,
{
}

/// Of two inserts with the same user name and email address, at most one
/// succeeds, whichever runs first; and when neither is stored yet (and the
/// first identifier is free), exactly the first succeeds and the second is
/// refused as a duplicate.
pub proof fn lemma_same_identity_succeeds_once(
    rows: Seq<UserRecord>,
    first: UserRecord,
    second: UserRecord,
)
    requires
        first.username == second.username,
        first.email == second.email,
    ensures
        !(insert_conflict(rows, first) is None && insert_conflict(
            after_insert(rows, first),
            second,
        ) is None),
        !email_taken(rows, first.email) && !name_taken(rows, first.username) && !id_taken(
            rows,
            first.id,
        ) ==> insert_conflict(rows, first) is None && insert_conflict(
            after_insert(rows, first),
            second,
        ) == Some(Conflict::Email),
{
    if insert_conflict(rows, first) is None {
        let after = rows.push(first);
        assert(after[rows.len() as int].email == second.email);
        assert(email_taken(after, second.email));
    }
}

/// A repository that holds its users in memory, in the order of creation.
pub struct InMemoryUserRepository {
    users: Vec<User>,
    answered: Ghost<Seq<Answer>>,
}

impl View for InMemoryUserRepository {
    type V = Seq<UserRecord>;

    closed spec fn view(&self) -> Seq<UserRecord> {
        self.users@.map_values(|u: User| u@)
    }
}

impl InMemoryUserRepository {
    #[verifier::type_invariant]
    closed spec fn inv(&self) -> bool {
        unique_rows(self@)
    }

    /// An empty repository.
    pub fn new() -> (r: InMemoryUserRepository)
        ensures
            r@ == Seq::<UserRecord>::empty(),
    {
        let r = InMemoryUserRepository { users: Vec::new(), answered: Ghost(Seq::empty()) };
        assert(r@ =~= Seq::<UserRecord>::empty());
        r
    }

    /// The number of stored users.
    pub fn len(&self) -> (r: usize)
        ensures
            r == self@.len(),
            unique_rows(self@),
    {
        proof {
            use_type_invariant(self);
        }
        self.users.len()
    }

    /// The stored users, in the order of creation.
    pub fn stored_users(&self) -> (r: &[User])
        ensures
            r@.map_values(|u: User| u@) == self@,
            unique_rows(self@),
    {
        proof {
            use_type_invariant(self);
        }
        self.users.as_slice()
    }

    /// Inserts a user with the given identifier and creation time unless a
    /// unique constraint forbids it; then reports the violated constraint.
    pub fn insert(&mut self, id: u128, req: &CreateUserRequest, created_at: i64) -> (r: Result<
        User,
        CreateUserError,
    >)
        ensures
            ({
                let row = UserRecord {
                    id,
                    username: req.name@,
                    email: req.email@,
                    created_at,
                };
                &&& final(self)@ == after_insert(old(self)@, row)
                &&& match insert_conflict(old(self)@, row) {
                    None => r matches Ok(u) && u@ == row,
                    Some(Conflict::Email) => r matches Err(
                        CreateUserError::DuplicateEmail { email },
                    ) && email@ == req.email@,
                    Some(Conflict::UserName) => r matches Err(
                        CreateUserError::DuplicateUserName { username },
                    ) && username@ == req.name@,
                    Some(Conflict::Id) => r matches Err(CreateUserError::Unknown(_)),
                }
            }),
    {
        proof {
            use_type_invariant(&*self);
        }
        let ghost rows = self@;
        let ghost row = UserRecord { id, username: req.name@, email: req.email@, created_at };
        let n = self.users.len();
        let mut email_hit = false;
        let mut name_hit = false;
        let mut id_hit = false;
        let mut k: usize = 0;
        while k < n
            invariant
                n == self.users@.len(),
                rows == self@,
                row == (UserRecord { id, username: req.name@, email: req.email@, created_at }),
                0 <= k <= n,
                email_hit == exists|m: int| 0 <= m < k && (#[trigger] rows[m]).email == row.email,
                name_hit == exists|m: int| 0 <= m < k && (#[trigger] rows[m]).username == row.username,
                id_hit == exists|m: int| 0 <= m < k && (#[trigger] rows[m]).id == row.id,
            decreases n - k,
        {
            let u = &self.users[k];
            assert(rows[k as int] == u@);
            let same_email = u.email_addr.is_same(&req.email);
            let same_name = u.username.is_same(&req.name);
            if same_email {
                email_hit = true;
            }
            if same_name {
                name_hit = true;
            }
            if u.id == id {
                id_hit = true;
            }
            k = k + 1;
        }
        if email_hit {
            Err(CreateUserError::DuplicateEmail { email: req.email.clone() })
        } else if name_hit {
            Err(CreateUserError::DuplicateUserName { username: req.name.clone() })
        } else if id_hit {
            Err(CreateUserError::Unknown(String::from_str("identifier already in use")))
        } else {
            let user = User::new(id, req.name.clone(), req.email.clone(), created_at);
            let stored = user.clone();
            proof {
                lemma_insert_keeps_rows_unique(rows, row);
            }
            let mut users: Vec<User> = Vec::new();
            proof {
                assert(Seq::<User>::empty().map_values(|u: User| u@) =~= Seq::<UserRecord>::empty());
            }
            std::mem::swap(&mut users, &mut self.users);
            users.push(stored);
            assert(users@.map_values(|u: User| u@) =~= rows.push(row));
            self.users = users;
            Ok(user)
        }
    }
}

impl UserRepository for InMemoryUserRepository {
    closed spec fn users(&self) -> Seq<UserRecord> {
        self@
    }

    closed spec fn answers(&self) -> Seq<Answer> {
        self.answered@
    }

    /// Inserts the user with a random identifier and the current time. A
    /// stored email address is refused first, then a stored user name; an
    /// identifier that happens to be taken is an unknown error. Into an empty
    /// repository the insert always succeeds.
    fn create_user(&mut self, req: &CreateUserRequest) -> (r: Result<User, CreateUserError>)
        ensures
            final(self)@ == final(self).users(),
            old(self)@ == old(self).users(),
            email_taken(old(self)@, req.email@) ==> (r matches Err(
                CreateUserError::DuplicateEmail { .. },
            ) && final(self)@ == old(self)@),
            !email_taken(old(self)@, req.email@) && name_taken(old(self)@, req.name@) ==> (
            r matches Err(CreateUserError::DuplicateUserName { .. }) && final(self)@ == old(
                self,
            )@),
            !email_taken(old(self)@, req.email@) && !name_taken(old(self)@, req.name@) ==> (r is Ok
                || r matches Err(CreateUserError::Unknown(_))),
            old(self)@.len() == 0 ==> r is Ok,
            r matches Ok(u) ==> !id_taken(old(self)@, u.id) && final(self)@ == old(self)@.push(u@),
            r is Err ==> final(self)@ == old(self)@,
    {
        let id = random_user_id();
        let created_at = now_micros();
        let ghost before = self.answered@;
        let r = self.insert(id, req, created_at);
        proof {
            use_type_invariant(&*self);
        }
        self.answered = Ghost(before.push(answer_of(req, r)));
        r
    }
}

} // verus!
