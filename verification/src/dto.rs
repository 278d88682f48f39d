//! What crosses the boundary of the service: the registration request, the
//! answer to it, and the pair that an activation link carries.

use vstd::prelude::*;
use vstd::string::*;

verus! {

/// A request to register: the username and the email must both be unused.
pub struct CreateUserDTO {
    /// Between 3 and 16 characters.
    pub username: String,
    pub email: String,
    /// Between 6 and 32 characters.
    pub password: String,
}

pub struct CreateUser {
    pub username: Seq<char>,
    pub email: Seq<char>,
    pub password: Seq<char>,
}

impl View for CreateUserDTO {
    type V = CreateUser;

    open spec fn view(&self) -> CreateUser {
        CreateUser { username: self.username@, email: self.email@, password: self.password@ }
    }
}

/// Whether `validator::validate_email` takes `text` for an email address.
pub uninterp spec fn is_email(text: Seq<char>) -> bool;

/// Calls `validator::validate_email`. Trusted: the verdict is a function of
/// the text alone, here named `is_email`.
#[verifier::external_body]
pub(crate) fn validate_email(text: &str) -> (ok: bool)
    ensures
        ok == is_email(text@),
{
    validator::validate_email(text)
}

impl CreateUser {
    /// The lengths that the request's fields must have.
    pub open spec fn lengths_in_range(self) -> bool {
        &&& 3 <= self.username.len() <= 16
        &&& 6 <= self.password.len() <= 32
    }

    /// The shape that a request must have before it is registered: the
    /// lengths in range and the email an email address.
    pub open spec fn valid(self) -> bool {
        self.lengths_in_range() && is_email(self.email)
    }
}

impl CreateUserDTO {
    /// Whether username and password have an accepted length, in characters.
    pub fn has_valid_lengths(&self) -> (ok: bool)
        ensures
            ok == self@.lengths_in_range(),
    {
        let name: usize = self.username.as_str().unicode_len();
        let secret: usize = self.password.as_str().unicode_len();
        3 <= name && name <= 16 && 6 <= secret && secret <= 32
    }

    /// Whether the email is an email address.
    pub fn has_valid_email(&self) -> (ok: bool)
        ensures
            ok == is_email(self@.email),
    {
        validate_email(self.email.as_str())
    }

    /// Whether the request has the shape that registration asks for.
    pub fn is_valid(&self) -> (ok: bool)
        ensures
            ok == self@.valid(),
    {
        self.has_valid_lengths() && self.has_valid_email()
    }
}

/// The answer to a successful registration. It names the account and repeats
/// what the caller sent; hash, salt and token never appear in it.
pub struct UserCreatedDTO {
    pub id: u128,
    pub username: String,
    pub email: String,
}

pub struct UserCreated {
    pub id: u128,
    pub username: Seq<char>,
    pub email: Seq<char>,
}

impl View for UserCreatedDTO {
    type V = UserCreated;

    open spec fn view(&self) -> UserCreated {
        UserCreated { id: self.id, username: self.username@, email: self.email@ }
    }
}

/// What an activation link carries: the token and the account it activates.
#[derive(Clone, Copy, Debug, PartialEq, Eq, Structural)]
pub struct ActiveEmailDTO {
    pub token: u128,
    pub user_id: u128,
}

} // verus!
