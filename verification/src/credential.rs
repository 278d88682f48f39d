//! Credential derivation: a random salt and the Argon2 hash of a secret under
//! that salt, both as text.

use vstd::prelude::*;
use argon2::password_hash::SaltString;
use argon2::{Argon2, PasswordHasher};
use rand::rngs::OsRng;
use crate::error::UserCreationError;

verus! {

/// What Argon2id with the default parameters makes of `password` under `salt`:
/// the PHC string on success, the error's message otherwise.
pub uninterp spec fn argon2_phc(password: Seq<char>, salt: Seq<char>) -> Result<
    Seq<char>,
    Seq<char>,
>;

/// A character of the unpadded standard Base64 alphabet.
pub open spec fn is_b64_char(c: char) -> bool {
    ||| 'A' <= c <= 'Z'
    ||| 'a' <= c <= 'z'
    ||| '0' <= c <= '9'
    ||| c == '+'
    ||| c == '/'
}

/// The shape of a freshly drawn salt: sixteen bytes in Base64, 22 characters.
pub open spec fn is_fresh_salt(salt: Seq<char>) -> bool {
    &&& salt.len() == 22
    &&& forall|i: int| 0 <= i < salt.len() ==> is_b64_char(#[trigger] salt[i])
}

/// The view of a derivation outcome.
pub open spec fn outcome_view(outcome: Result<String, String>) -> Result<Seq<char>, Seq<char>> {
    match outcome {
        Ok(text) => Ok(text@),
        Err(message) => Err(message@),
    }
}

/// Calls `SaltString::generate` on the operating system's generator and
/// formats the salt. Trusted: the text is the unpadded Base64 form of sixteen
/// bytes; nothing is claimed of which bytes. Where the operating system has
/// no random bytes to give, the generator panics and so does this.
#[verifier::external_body]
pub(crate) fn random_salt() -> (salt: String)
    ensures
        is_fresh_salt(salt@),
{
    SaltString::generate(&mut OsRng).to_string()
}

/// Calls `SaltString::from_b64` and `Argon2::default().hash_password`, and
/// formats the hash or the error. Trusted: the outcome is a function of the
/// secret and the salt text alone, here named `argon2_phc`.
#[verifier::external_body]
pub(crate) fn argon2_hash(password: &str, salt: &str) -> (outcome: Result<String, String>)
    ensures
        outcome_view(outcome) == argon2_phc(password@, salt@),
{
    match SaltString::from_b64(salt) {
        Err(e) => Err(e.to_string()),
        Ok(salt) => match Argon2::default().hash_password(password.as_bytes(), &salt) {
            Ok(hash) => Ok(hash.to_string()),
            Err(e) => Err(e.to_string()),
        },
    }
}

/// A derived credential: the hash and the salt it was derived under.
pub struct Credential {
    pub hash: String,
    pub salt: String,
}

pub struct CredentialView {
    pub hash: Seq<char>,
    pub salt: Seq<char>,
}

impl View for Credential {
    type V = CredentialView;

    open spec fn view(&self) -> CredentialView {
        CredentialView { hash: self.hash@, salt: self.salt@ }
    }
}

/// What a derivation outcome under `salt` amounts to.
pub open spec fn sealed(salt: Seq<char>, outcome: Result<Seq<char>, Seq<char>>) -> Result<
    CredentialView,
    crate::error::Failure,
> {
    match outcome {
        Ok(hash) => Ok(CredentialView { hash, salt }),
        Err(message) => Err(crate::error::Failure::PasswordHashing(message)),
    }
}

/// Pairs a derivation outcome with its salt; a fault becomes
/// `PasswordHashingError` with the fault's message.
pub fn seal(salt: String, outcome: Result<String, String>) -> (r: Result<
    Credential,
    UserCreationError,
>)
    ensures
        crate::error::result_view(r) == sealed(salt@, outcome_view(outcome)),
{
    match outcome {
        Ok(hash) => Ok(Credential { hash, salt }),
        Err(message) => Err(UserCreationError::PasswordHashingError(message)),
    }
}

/// Derives the hash of `password` under a given salt.
pub fn derive_hash(password: &str, salt: &str) -> (outcome: Result<String, String>)
    ensures
        outcome_view(outcome) == argon2_phc(password@, salt@),
{
    argon2_hash(password, salt)
}

/// Derives a credential for `password` under a salt drawn for this call:
/// the result is what Argon2 makes of the secret under some fresh salt, the
/// hash paired with that salt where it succeeds and `PasswordHashingError`
/// with its message where it fails. Deriving again from the same secret and
/// the returned salt gives the returned hash.
pub fn provision(password: &str) -> (r: Result<Credential, UserCreationError>)
    ensures
        exists|salt: Seq<char>|
            is_fresh_salt(salt) && crate::error::result_view(r) == #[trigger] sealed(
                salt,
                argon2_phc(password@, salt),
            ),
        match r {
            Ok(credential) => {
                &&& is_fresh_salt(credential.salt@)
                &&& argon2_phc(password@, credential.salt@) == Ok::<Seq<char>, Seq<char>>(
                    credential.hash@,
                )
            },
            Err(e) => e is PasswordHashingError,
        },
{
    let salt = random_salt();
    let ghost drawn = salt@;
    let outcome = argon2_hash(password, salt.as_str());
    let r = seal(salt, outcome);
    assert(crate::error::result_view(r) == sealed(drawn, argon2_phc(password@, drawn)));
    r
}

} // verus!
