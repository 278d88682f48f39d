//! Why a registration fails, and what the caller is told.

use vstd::prelude::*;
use vstd::string::*;

verus! {

/// A failed registration.
#[derive(Debug)]
pub enum UserCreationError {
    /// An account with the username exists.
    DuplicateUsername,
    /// An email identity with the address exists.
    DuplicateEmail,
    /// The credential could not be derived.
    PasswordHashingError(String),
    /// The store failed.
    DatabaseError(String),
    /// The activation address is no absolute URL, or the email was not sent.
    SendEmailError(String),
}

pub enum Failure {
    DuplicateUsername,
    DuplicateEmail,
    PasswordHashing(Seq<char>),
    Database(Seq<char>),
    SendEmail(Seq<char>),
}

impl View for UserCreationError {
    type V = Failure;

    open spec fn view(&self) -> Failure {
        match self {
            UserCreationError::DuplicateUsername => Failure::DuplicateUsername,
            UserCreationError::DuplicateEmail => Failure::DuplicateEmail,
            UserCreationError::PasswordHashingError(m) => Failure::PasswordHashing(m@),
            UserCreationError::DatabaseError(m) => Failure::Database(m@),
            UserCreationError::SendEmailError(m) => Failure::SendEmail(m@),
        }
    }
}

/// The view of a result whose two sides have views.
pub open spec fn result_view<T: View, E: View>(r: Result<T, E>) -> Result<T::V, E::V> {
    match r {
        Ok(value) => Ok(value@),
        Err(error) => Err(error@),
    }
}

impl UserCreationError {
    /// A copy of the failure.
    pub fn duplicate(&self) -> (copy: UserCreationError)
        ensures
            copy@ == self@,
    {
        match self {
            UserCreationError::DuplicateUsername => UserCreationError::DuplicateUsername,
            UserCreationError::DuplicateEmail => UserCreationError::DuplicateEmail,
            UserCreationError::PasswordHashingError(m) => UserCreationError::PasswordHashingError(
                m.clone(),
            ),
            UserCreationError::DatabaseError(m) => UserCreationError::DatabaseError(m.clone()),
            UserCreationError::SendEmailError(m) => UserCreationError::SendEmailError(m.clone()),
        }
    }
}

/// What the caller of the service is answered when a request fails.
#[derive(Debug)]
pub enum AppError {
    /// The caller can mend the request.
    BadRequest(String),
    /// The service failed; the message is for the service's log.
    InternalError(String),
}

pub enum Answer {
    BadRequest(Seq<char>),
    Internal(Seq<char>),
}

impl View for AppError {
    type V = Answer;

    open spec fn view(&self) -> Answer {
        match self {
            AppError::BadRequest(m) => Answer::BadRequest(m@),
            AppError::InternalError(m) => Answer::Internal(m@),
        }
    }
}

impl Failure {
    /// The answer to a failed registration: a duplicate is the caller's to
    /// mend and is named; everything else is internal.
    pub open spec fn answer(self) -> Answer {
        match self {
            Failure::DuplicateUsername => Answer::BadRequest("Username already exists"@),
            Failure::DuplicateEmail => Answer::BadRequest("Email already exists"@),
            Failure::PasswordHashing(m) => Answer::Internal(m),
            Failure::Database(m) => Answer::Internal(m),
            Failure::SendEmail(m) => Answer::Internal(m),
        }
    }
}

impl Answer {
    /// What the caller is shown: the message of a bad request, and one
    /// opaque message for every internal failure.
    pub open spec fn shown(self) -> Seq<char> {
        match self {
            Answer::BadRequest(m) => m,
            Answer::Internal(_) => "Internal server error"@,
        }
    }
}

impl UserCreationError {
    /// The answer to the caller.
    pub fn into_app_error(self) -> (answer: AppError)
        ensures
            answer@ == self@.answer(),
    {
        match self {
            UserCreationError::DuplicateUsername => AppError::BadRequest(
                String::from_str("Username already exists"),
            ),
            UserCreationError::DuplicateEmail => AppError::BadRequest(
                String::from_str("Email already exists"),
            ),
            UserCreationError::PasswordHashingError(m) => AppError::InternalError(m),
            UserCreationError::DatabaseError(m) => AppError::InternalError(m),
            UserCreationError::SendEmailError(m) => AppError::InternalError(m),
        }
    }
}

impl AppError {
    /// The message that the caller is shown. No detail of an internal
    /// failure is in it.
    pub fn public_message(&self) -> (message: String)
        ensures
            message@ == self@.shown(),
    {
        match self {
            AppError::BadRequest(m) => m.clone(),
            AppError::InternalError(_) => String::from_str("Internal server error"),
        }
    }
}

} // verus!
