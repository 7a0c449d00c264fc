use vstd::prelude::*;

use crate::email::{email_accepted, email_equivalent, email_rejection_text, parse_email, same_address};
use crate::text::{
    contains_whitespace, has_white_space, is_white_space, lemma_trim_all_white_space, trim,
    trim_bounds,
};

verus! {

/// A user name: non-empty, with no whitespace anywhere in it.
pub open spec fn valid_user_name(s: Seq<char>) -> bool {
    s.len() > 0 && !has_white_space(s)
}

/// A validated user name, stored trimmed.
#[derive(Debug, Eq, Hash)]
pub struct UserName(String);

/// Why a raw user name was rejected.
#[derive(Clone, Debug, PartialEq, Eq)]
pub enum UserNameError {
    Empty,
    WithWhitespace { invalid_username: String },
}

impl View for UserName {
    type V = Seq<char>;

    closed spec fn view(&self) -> Seq<char> {
        self.0@
    }
}

impl UserName {
    #[verifier::type_invariant]
    closed spec fn inv(&self) -> bool {
        valid_user_name(self.0@)
    }

    /// Trims `raw`; rejects an empty result, and one with whitespace left
    /// inside it (reporting `raw` as given).
    pub fn new(raw: &str) -> (r: Result<UserName, UserNameError>)
        ensures
            r matches Err(UserNameError::Empty) <==> trim(raw@).len() == 0,
            r matches Err(UserNameError::WithWhitespace { invalid_username }) ==> invalid_username@
                == raw@,
            r matches Err(UserNameError::WithWhitespace { .. }) <==> trim(raw@).len() > 0
                && has_white_space(trim(raw@)),
            r matches Ok(u) ==> u@ == trim(raw@) && valid_user_name(u@),
            (forall|k: int| 0 <= k < raw@.len() ==> is_white_space(#[trigger] raw@[k])) ==> r matches Err(
                UserNameError::Empty,
            ),
    {
        proof {
            if forall|k: int| 0 <= k < raw@.len() ==> is_white_space(#[trigger] raw@[k]) {
                lemma_trim_all_white_space(raw@);
            }
        }
        let (i, j) = trim_bounds(raw);
        if i == j {
            Err(UserNameError::Empty)
        } else {
            let trimmed = raw.substring_char(i, j);
            if contains_whitespace(trimmed) {
                Err(UserNameError::WithWhitespace { invalid_username: String::from_str(raw) })
            } else {
                Ok(UserName(String::from_str(trimmed)))
            }
        }
    }

    /// The name's text, which is never empty and holds no whitespace.
    pub fn as_str(&self) -> (r: &str)
        ensures
            r@ == self@,
            valid_user_name(r@),
    {
        proof {
            use_type_invariant(self);
        }
        self.0.as_str()
    }
}

impl UserName {
    /// Whether the two hold the same text.
    pub fn is_same(&self, other: &UserName) -> (r: bool)
        ensures
            r == (self@ == other@),
    {
        self.0 == other.0
    }
}

impl PartialEq for UserName {
    fn eq(&self, other: &UserName) -> (r: bool) {
        self.0 == other.0
    }
}

impl vstd::std_specs::cmp::PartialEqSpecImpl for UserName {
    open spec fn obeys_eq_spec() -> bool {
        true
    }

    open spec fn eq_spec(&self, other: &UserName) -> bool {
        self@ == other@
    }
}

impl Clone for UserName {
    fn clone(&self) -> (r: UserName)
        ensures
            r == *self,
    {
        proof {
            use_type_invariant(self);
        }
        UserName(self.0.clone())
    }
}

/// What parsing `s` as an email address yields: the address's text, or
/// nothing when `s` is rejected.
pub open spec fn parsed_email(s: Seq<char>) -> Option<Seq<char>> {
    if email_accepted(s) {
        Some(s)
    } else {
        None
    }
}

/// Parsing is stable: the text of an accepted address parses again, to the
/// same address.
pub proof fn lemma_email_round_trip(s: Seq<char>)
    ensures
        parsed_email(s) matches Some(c) ==> parsed_email(c) == Some(c),
{
}

/// A syntactically valid email address.
#[derive(Debug, Eq, Hash)]
pub struct EmailAddress(String);

/// An input that is not an email address, with the parser's reason.
#[derive(Clone, Debug, PartialEq, Eq)]
pub struct EmailAddressError {
    pub invalid_email: String,
    pub message: String,
}

impl View for EmailAddress {
    type V = Seq<char>;

    closed spec fn view(&self) -> Seq<char> {
        self.0@
    }
}

impl EmailAddress {
    #[verifier::type_invariant]
    closed spec fn inv(&self) -> bool {
        email_accepted(self.0@)
    }

    /// Parses `email` by the email grammar.
    pub fn new(email: &str) -> (r: Result<EmailAddress, EmailAddressError>)
        ensures
            r is Ok <==> parsed_email(email@) is Some,
            r matches Ok(e) ==> parsed_email(email@) == Some(e@),
            r matches Err(err) ==> err.invalid_email@ == email@ && err.message@
                == email_rejection_text(email@) && err.message@.len() > 0,
    {
        match parse_email(email) {
            Ok(text) => Ok(EmailAddress(text)),
            Err(message) => Err(EmailAddressError { invalid_email: String::from_str(email), message }),
        }
    }

    /// The address's text, which parses back to the same address.
    pub fn as_str(&self) -> (r: &str)
        ensures
            r@ == self@,
            parsed_email(r@) == Some(r@),
    {
        proof {
            use_type_invariant(self);
        }
        self.0.as_str()
    }
}

impl EmailAddress {
    /// Whether the two hold the same text.
    pub fn is_same(&self, other: &EmailAddress) -> (r: bool)
        ensures
            r == (self@ == other@),
    {
        self.0 == other.0
    }
}

/// Two addresses are equal as `email_address` compares them: the domain's
/// ASCII case does not count.
impl PartialEq for EmailAddress {
    fn eq(&self, other: &EmailAddress) -> (r: bool) {
        proof {
            use_type_invariant(self);
            use_type_invariant(other);
        }
        same_address(self.0.as_str(), other.0.as_str())
    }
}

impl vstd::std_specs::cmp::PartialEqSpecImpl for EmailAddress {
    open spec fn obeys_eq_spec() -> bool {
        true
    }

    open spec fn eq_spec(&self, other: &EmailAddress) -> bool {
        email_equivalent(self@, other@)
    }
}

impl Clone for EmailAddress {
    fn clone(&self) -> (r: EmailAddress)
        ensures
            r == *self,
    {
        proof {
            use_type_invariant(self);
        }
        EmailAddress(self.0.clone())
    }
}

} // verus!

verus! {

/// What a persisted user holds, as plain values.
pub struct UserRecord {
    pub id: u128,
    pub username: Seq<char>,
    pub email: Seq<char>,
    pub created_at: i64,
}

/// A persisted user: built from validated parts, with the identifier and
/// creation time that the store assigned.
#[derive(Debug)]
pub struct User {
    pub id: u128,
    pub username: UserName,
    pub email_addr: EmailAddress,
    /// Microseconds since the Unix epoch.
    pub created_at: i64,
}

impl View for User {
    type V = UserRecord;

    open spec fn view(&self) -> UserRecord {
        UserRecord {
            id: self.id,
            username: self.username@,
            email: self.email_addr@,
            created_at: self.created_at,
        }
    }
}

impl User {
    pub fn new(id: u128, username: UserName, email_addr: EmailAddress, created_at: i64) -> (r: User)
        ensures
            r.id == id,
            r.username == username,
            r.email_addr == email_addr,
            r.created_at == created_at,
    {
        User { id, username, email_addr, created_at }
    }

    pub fn id(&self) -> (r: u128)
        ensures
            r == self.id,
    {
        self.id
    }

    pub fn username(&self) -> (r: &UserName)
        ensures
            *r == self.username,
    {
        &self.username
    }

    pub fn email(&self) -> (r: &EmailAddress)
        ensures
            *r == self.email_addr,
    {
        &self.email_addr
    }

    pub fn created_at(&self) -> (r: i64)
        ensures
            r == self.created_at,
    {
        self.created_at
    }
}

impl Clone for User {
    fn clone(&self) -> (r: User)
        ensures
            r == *self,
    {
        User {
            id: self.id,
            username: self.username.clone(),
            email_addr: self.email_addr.clone(),
            created_at: self.created_at,
        }
    }
}

/// The validated intent to create a user.
#[derive(Debug, PartialEq, Eq)]
pub struct CreateUserRequest {
    pub name: UserName,
    pub email: EmailAddress,
}

impl CreateUserRequest {
    pub fn new(name: UserName, email: EmailAddress) -> (r: CreateUserRequest)
        ensures
            r.name == name,
            r.email == email,
    {
        CreateUserRequest { name, email }
    }

    pub fn name(&self) -> (r: &UserName)
        ensures
            *r == self.name,
    {
        &self.name
    }

    pub fn email(&self) -> (r: &EmailAddress)
        ensures
            *r == self.email,
    {
        &self.email
    }
}

impl Clone for CreateUserRequest {
    fn clone(&self) -> (r: CreateUserRequest)
        ensures
            r == *self,
    {
        CreateUserRequest { name: self.name.clone(), email: self.email.clone() }
    }
}

/// Why a user could not be created.
#[derive(Debug)]
pub enum CreateUserError {
    /// A user with this name already exists.
    DuplicateUserName { username: UserName },
    /// A user with this email address already exists.
    DuplicateEmail { email: EmailAddress },
    /// Any other failure, with its diagnostic detail.
    Unknown(String),
}

/// What a `CreateUserError` holds, as plain values.
pub enum CreateUserErrorView {
    DuplicateUserName(Seq<char>),
    DuplicateEmail(Seq<char>),
    Unknown(Seq<char>),
}

impl View for CreateUserError {
    type V = CreateUserErrorView;

    open spec fn view(&self) -> CreateUserErrorView {
        match self {
            CreateUserError::DuplicateUserName { username } => CreateUserErrorView::DuplicateUserName(
                username@,
            ),
            CreateUserError::DuplicateEmail { email } => CreateUserErrorView::DuplicateEmail(email@),
            CreateUserError::Unknown(m) => CreateUserErrorView::Unknown(m@),
        }
    }
}

/// The outcome of a creation, as plain values.
pub open spec fn outcome_view(r: Result<User, CreateUserError>) -> Result<
    UserRecord,
    CreateUserErrorView,
> {
    match r {
        Ok(u) => Ok(u@),
        Err(e) => Err(e@),
    }
}

/// A creation request that was answered, with its answer.
pub struct Answer {
    pub name: Seq<char>,
    pub email: Seq<char>,
    pub outcome: Result<UserRecord, CreateUserErrorView>,
}

/// The record of answering `req` with `r`.
pub open spec fn answer_of(req: &CreateUserRequest, r: Result<User, CreateUserError>) -> Answer {
    Answer { name: req.name@, email: req.email@, outcome: outcome_view(r) }
}

} // verus!
