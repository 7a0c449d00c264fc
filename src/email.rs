use std::str::FromStr;
use vstd::prelude::*;

verus! {

/// Whether `email_address` accepts `s` as an email address (local part, `@`,
/// domain, by its default options).
pub uninterp spec fn email_accepted(s: Seq<char>) -> bool;

/// The message of the error that `email_address` gives when it rejects `s`.
pub uninterp spec fn email_rejection_text(s: Seq<char>) -> Seq<char>;

/// Relies on `email_address::EmailAddress::from_str`: it accepts or rejects by
/// the grammar alone, and an accepted address keeps the input text as it was
/// (`as_str` hands back what was parsed). A rejection is rendered by the
/// error's `Display`, which writes a sentence for every kind of error.
#[verifier::external_body]
pub(crate) fn parse_email(s: &str) -> (r: Result<String, String>)
    ensures
        r is Ok <==> email_accepted(s@),
        r matches Ok(v) ==> v@ == s@,
        r matches Err(m) ==> m@ == email_rejection_text(s@) && m@.len() > 0,
{
    match email_address::EmailAddress::from_str(s) {
        Ok(e) => Ok(e.as_str().to_string()),
        Err(err) => Err(err.to_string()),
    }
}

} // verus!

verus! {

/// Whether `email_address` takes two accepted addresses for the same one.
pub uninterp spec fn email_equivalent(a: Seq<char>, b: Seq<char>) -> bool;

/// Relies on the `PartialEq` of `email_address::EmailAddress`: the local parts
/// are equal and the domains are equal ignoring ASCII case, the two split at
/// the last `@`, which every accepted address holds. Identical texts are equal.
#[verifier::external_body]
pub(crate) fn same_address(a: &str, b: &str) -> (r: bool)
    requires
        email_accepted(a@),
        email_accepted(b@),
    ensures
        r == email_equivalent(a@, b@),
        a@ == b@ ==> r,
{
    email_address::EmailAddress::new_unchecked(a) == email_address::EmailAddress::new_unchecked(b)
}

} // verus!
