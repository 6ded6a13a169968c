//! User records and the rules that usernames and e-mail addresses follow.
use vstd::prelude::*;
use crate::text::{contains_char, has_char};

verus! {

/// The role of a user on the platform.
#[derive(Clone, Copy, Debug, PartialEq, Eq, Structural)]
pub enum UserRole {
    Student,
    Instructor,
    Admin,
    Moderator,
}

/// Something a user has earned.
#[derive(Clone, Debug)]
pub struct Achievement {
    pub id: String,
    pub title: String,
    pub description: String,
    pub earned_at: u64,
}

/// What a caller supplies to register as a user.
#[derive(Clone, Debug)]
pub struct CreateUserRequest {
    pub username: String,
    pub email: String,
    pub full_name: String,
    pub bio: Option<String>,
    pub skills: Vec<String>,
}

/// Whether `c` is alphabetic or numeric in the Unicode sense.
pub uninterp spec fn is_alphanumeric_char(c: char) -> bool;

/// Relies on char::is_alphanumeric: whether the character has the Unicode
/// Alphabetic property or a Numeric general category; a fact of the
/// character alone.
#[verifier::external_body]
fn char_is_alphanumeric(c: char) -> (r: bool)
    ensures
        r == is_alphanumeric_char(c),
{
    c.is_alphanumeric()
}

/// An e-mail address is accepted when it has an '@' and a '.' and is
/// longer than five bytes in UTF-8 (`str::len`).
pub open spec fn valid_email(email: &str) -> bool {
    has_char(email@, '@') && has_char(email@, '.') && email.len() > 5
}

/// A username is accepted when it is 3 to 50 bytes long in UTF-8 (`str::len`) and
/// every character is alphanumeric or an underscore.
pub open spec fn valid_username(username: &str) -> bool {
    &&& 3 <= username.len() <= 50
    &&& forall|i: int|
        0 <= i < username@.len() ==> is_alphanumeric_char(#[trigger] username@[i]) || username@[i]
            == '_'
}

pub fn is_valid_email(email: &str) -> (r: bool)
    ensures
        r == valid_email(email),
{
    contains_char(email, '@') && contains_char(email, '.') && email.len() > 5
}

pub fn is_valid_username(username: &str) -> (r: bool)
    ensures
        r == valid_username(username),
{
    let len = username.len();
    if len < 3 || len > 50 {
        return false;
    }
    let mut ok = true;
    for c in it: username.chars()
        invariant
            it.seq() == username@,
            ok == (forall|i: int|
                0 <= i < it.index() ==> is_alphanumeric_char(#[trigger] username@[i])
                    || username@[i] == '_'),
    {
        if !(char_is_alphanumeric(c) || c == '_') {
            ok = false;
        }
    }
    ok
}

} // verus!
