//! The three rows that one registration writes.

use vstd::prelude::*;
use crate::credential::{Credential, CredentialView};
use crate::dto::{CreateUserDTO, UserCreatedDTO, UserCreated};

verus! {

/// The identity root of a registered user.
pub struct AccountRecord {
    pub id: u128,
    pub username: String,
}

pub struct AccountRow {
    pub id: u128,
    pub username: Seq<char>,
}

impl View for AccountRecord {
    type V = AccountRow;

    open spec fn view(&self) -> AccountRow {
        AccountRow { id: self.id, username: self.username@ }
    }
}

/// An email address bound to one account, inactive until its token is
/// redeemed.
pub struct EmailRecord {
    pub id: u128,
    pub key: String,
    pub active: bool,
    pub activation_token: u128,
    pub user_id: u128,
}

pub struct EmailRow {
    pub id: u128,
    pub key: Seq<char>,
    pub active: bool,
    pub activation_token: u128,
    pub user_id: u128,
}

impl View for EmailRecord {
    type V = EmailRow;

    open spec fn view(&self) -> EmailRow {
        EmailRow {
            id: self.id,
            key: self.key@,
            active: self.active,
            activation_token: self.activation_token,
            user_id: self.user_id,
        }
    }
}

/// The secret material of one account. The reset token is unset until a
/// password reset is asked for.
pub struct PasswordRecord {
    pub id: u128,
    pub user_id: u128,
    pub hash: String,
    pub salt: String,
    pub reset_token: Option<u128>,
}

pub struct PasswordRow {
    pub id: u128,
    pub user_id: u128,
    pub hash: Seq<char>,
    pub salt: Seq<char>,
    pub reset_token: Option<u128>,
}

impl View for PasswordRecord {
    type V = PasswordRow;

    open spec fn view(&self) -> PasswordRow {
        PasswordRow {
            id: self.id,
            user_id: self.user_id,
            hash: self.hash@,
            salt: self.salt@,
            reset_token: self.reset_token,
        }
    }
}

/// The account row of `username` under `id`.
pub open spec fn account_row(id: u128, username: Seq<char>) -> AccountRow {
    AccountRow { id, username }
}

/// The email row of `key` for account `user_id`: never active when written.
pub open spec fn email_row(id: u128, key: Seq<char>, token: u128, user_id: u128) -> EmailRow {
    EmailRow { id, key, active: false, activation_token: token, user_id }
}

/// The credential row of account `user_id`: written without a reset token.
pub open spec fn password_row(id: u128, user_id: u128, credential: CredentialView) -> PasswordRow {
    PasswordRow { id, user_id, hash: credential.hash, salt: credential.salt, reset_token: None }
}

impl AccountRecord {
    /// The account row of `username` under `id`.
    pub fn new(id: u128, username: String) -> (record: AccountRecord)
        ensures
            record@ == account_row(id, username@),
    {
        AccountRecord { id, username }
    }
}

impl EmailRecord {
    /// The email row of `key` for account `user_id`, not active.
    pub fn new(id: u128, key: String, token: u128, user_id: u128) -> (record: EmailRecord)
        ensures
            record@ == email_row(id, key@, token, user_id),
    {
        EmailRecord { id, key, active: false, activation_token: token, user_id }
    }
}

impl PasswordRecord {
    /// The credential row of account `user_id`, without a reset token.
    pub fn new(id: u128, user_id: u128, credential: Credential) -> (record: PasswordRecord)
        ensures
            record@ == password_row(id, user_id, credential@),
    {
        PasswordRecord {
            id,
            user_id,
            hash: credential.hash,
            salt: credential.salt,
            reset_token: None,
        }
    }
}

/// What a finished registration reports: the identifiers of the three rows
/// and the identity they were written for.
pub struct AccountSummary {
    pub id: u128,
    pub email_id: u128,
    pub password_id: u128,
    pub username: String,
    pub email: String,
}

pub struct Summary {
    pub id: u128,
    pub email_id: u128,
    pub password_id: u128,
    pub username: Seq<char>,
    pub email: Seq<char>,
}

impl View for AccountSummary {
    type V = Summary;

    open spec fn view(&self) -> Summary {
        Summary {
            id: self.id,
            email_id: self.email_id,
            password_id: self.password_id,
            username: self.username@,
            email: self.email@,
        }
    }
}

impl Summary {
    /// The part of the summary that the caller is shown.
    pub open spec fn shown(self) -> UserCreated {
        UserCreated { id: self.id, username: self.username, email: self.email }
    }
}

impl AccountSummary {
    /// The answer for the caller.
    pub fn into_dto(self) -> (dto: UserCreatedDTO)
        ensures
            dto@ == self@.shown(),
    {
        UserCreatedDTO { id: self.id, username: self.username, email: self.email }
    }
}

} // verus!
