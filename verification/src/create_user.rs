//! The registration protocol as a machine: it is told what the outside world
//! answered and says what to do next. Driven to its end it checks that
//! username and email are unused, opens a transaction, writes the account,
//! the email identity and the credential, sends the activation email, and
//! commits; whatever fails after the transaction is open rolls it back.

use vstd::prelude::*;
use vstd::string::*;
use crate::activation::{
    absolute_uri, activation_url, address_from, address_of, build_activation_url, issue_token,
    parse_url, welcome, ActivationEmail, Mail,
};
use crate::credential::{argon2_phc, derive_hash, is_fresh_salt, random_salt, seal, sealed};
use crate::dto::{ActiveEmailDTO, CreateUser, CreateUserDTO};
use crate::error::{result_view, Failure, UserCreationError};
use crate::ident::{fresh_id, is_random_uuid};
use crate::records::{
    account_row, email_row, password_row, AccountRecord, AccountRow, AccountSummary, EmailRecord,
    EmailRow, PasswordRecord, PasswordRow, Summary,
};
use crate::store::{Fault, FaultView, UniqueIndex};

verus! {

/// The random material of one registration: the identifiers of its three
/// rows, its activation token and the salt of its credential.
pub struct Supplies {
    pub account_id: u128,
    pub email_id: u128,
    pub token: u128,
    pub password_id: u128,
    pub salt: String,
}

pub struct SuppliesView {
    pub account_id: u128,
    pub email_id: u128,
    pub token: u128,
    pub password_id: u128,
    pub salt: Seq<char>,
}

impl View for Supplies {
    type V = SuppliesView;

    open spec fn view(&self) -> SuppliesView {
        SuppliesView {
            account_id: self.account_id,
            email_id: self.email_id,
            token: self.token,
            password_id: self.password_id,
            salt: self.salt@,
        }
    }
}

impl SuppliesView {
    /// What holds of supplies that were drawn: the identifiers and the token
    /// are random UUIDs, the salt is sixteen bytes in Base64.
    pub open spec fn drawn(self) -> bool {
        &&& is_random_uuid(self.account_id)
        &&& is_random_uuid(self.email_id)
        &&& is_random_uuid(self.token)
        &&& is_random_uuid(self.password_id)
        &&& is_fresh_salt(self.salt)
    }
}

impl Supplies {
    /// Draws the random material for one registration.
    pub fn draw() -> (supplies: Supplies)
        ensures
            supplies@.drawn(),
    {
        Supplies {
            account_id: fresh_id(),
            email_id: fresh_id(),
            token: issue_token(),
            password_id: fresh_id(),
            salt: random_salt(),
        }
    }
}

/// Where a registration stands: what it last asked for.
#[derive(Clone, Copy, Debug, PartialEq, Eq, Structural)]
pub enum Stage {
    /// Nothing was asked yet.
    Start,
    /// Whether an account has the username.
    CheckingUsername,
    /// Whether an email identity has the address.
    CheckingEmail,
    /// A transaction.
    Opening,
    /// The account row.
    WritingAccount,
    /// The email row.
    WritingEmail,
    /// The credential row.
    WritingPassword,
    /// The activation email.
    Dispatching,
    /// The commit.
    Committing,
    /// The rollback, after a failure.
    Aborting,
    /// The result was handed out.
    Finished,
}

/// One registration under way.
pub struct Registration {
    pub stage: Stage,
    pub user: CreateUserDTO,
    pub base_url: String,
    pub supplies: Supplies,
    /// Why the transaction is rolled back, while it is.
    pub failure: Option<UserCreationError>,
}

pub struct RegistrationView {
    pub stage: Stage,
    pub user: CreateUser,
    pub base_url: Seq<char>,
    pub supplies: SuppliesView,
    pub failure: Option<Failure>,
}

impl View for Registration {
    type V = RegistrationView;

    open spec fn view(&self) -> RegistrationView {
        RegistrationView {
            stage: self.stage,
            user: self.user@,
            base_url: self.base_url@,
            supplies: self.supplies@,
            failure: match self.failure {
                Some(e) => Some(e@),
                None => None,
            },
        }
    }
}

/// What the outside world answered to the last effect.
#[derive(Debug)]
pub enum Event {
    /// The request came in.
    Started,
    /// A lookup found a row, or none.
    Lookup(bool),
    /// The effect was carried out.
    Done,
    /// The effect failed.
    Failed(Fault),
}

pub enum EventView {
    Started,
    Lookup(bool),
    Done,
    Failed(FaultView),
}

impl View for Event {
    type V = EventView;

    open spec fn view(&self) -> EventView {
        match self {
            Event::Started => EventView::Started,
            Event::Lookup(found) => EventView::Lookup(*found),
            Event::Done => EventView::Done,
            Event::Failed(fault) => EventView::Failed(fault@),
        }
    }
}

/// What the machine asks the outside world to do.
pub enum Effect {
    /// Look for an account by username.
    FindUser(String),
    /// Look for an email identity by address.
    FindEmail(String),
    /// Open a transaction.
    Begin,
    /// Write the account row inside the transaction.
    InsertUser(AccountRecord),
    /// Write the email row inside the transaction.
    InsertEmail(EmailRecord),
    /// Write the credential row inside the transaction.
    InsertPassword(PasswordRecord),
    /// Render and send the activation email, once.
    SendEmail(ActivationEmail),
    /// Commit the transaction.
    Commit,
    /// Roll the transaction back.
    Rollback,
    /// Hand the result to the caller; nothing is left to do.
    Finish(Result<AccountSummary, UserCreationError>),
}

pub enum EffectView {
    FindUser(Seq<char>),
    FindEmail(Seq<char>),
    Begin,
    InsertUser(AccountRow),
    InsertEmail(EmailRow),
    InsertPassword(PasswordRow),
    SendEmail(Mail),
    Commit,
    Rollback,
    Finish(Result<Summary, Failure>),
}

impl View for Effect {
    type V = EffectView;

    open spec fn view(&self) -> EffectView {
        match self {
            Effect::FindUser(name) => EffectView::FindUser(name@),
            Effect::FindEmail(key) => EffectView::FindEmail(key@),
            Effect::Begin => EffectView::Begin,
            Effect::InsertUser(record) => EffectView::InsertUser(record@),
            Effect::InsertEmail(record) => EffectView::InsertEmail(record@),
            Effect::InsertPassword(record) => EffectView::InsertPassword(record@),
            Effect::SendEmail(mail) => EffectView::SendEmail(mail@),
            Effect::Commit => EffectView::Commit,
            Effect::Rollback => EffectView::Rollback,
            Effect::Finish(result) => EffectView::Finish(result_view(*result)),
        }
    }
}

/// The message of a failure that no fault explains.
pub open spec fn unexpected() -> Seq<char> {
    "unexpected event"@
}

/// The message that an event other than the awaited one carries.
pub open spec fn complaint(event: EventView) -> Seq<char> {
    match event {
        EventView::Failed(fault) => fault.message(),
        _ => unexpected(),
    }
}

/// The uniqueness rule: the username is judged first, the email second, and
/// only the first violation is reported.
pub open spec fn existing(user_exist: bool, email_exist: bool) -> Result<(), Failure> {
    if user_exist {
        Err(Failure::DuplicateUsername)
    } else if email_exist {
        Err(Failure::DuplicateEmail)
    } else {
        Ok(())
    }
}

/// The view of a check's verdict.
pub open spec fn verdict_view(r: Result<(), UserCreationError>) -> Result<(), Failure> {
    match r {
        Ok(()) => Ok(()),
        Err(e) => Err(e@),
    }
}

/// Judges what the two lookups found.
pub fn check_existing_user(user_exist: bool, email_exist: bool) -> (r: Result<
    (),
    UserCreationError,
>)
    ensures
        verdict_view(r) == existing(user_exist, email_exist),
{
    if user_exist {
        return Err(UserCreationError::DuplicateUsername);
    }
    if email_exist {
        return Err(UserCreationError::DuplicateEmail);
    }
    Ok(())
}

/// The account row of a request.
pub fn create_user_record(user: &CreateUserDTO, id: u128) -> (record: AccountRecord)
    ensures
        record@ == account_row(id, user@.username),
{
    AccountRecord::new(id, user.username.clone())
}

/// The email row of a request: bound to the account, inactive, carrying the
/// activation token.
pub fn create_email_record(user: &CreateUserDTO, user_id: u128, id: u128, token: u128) -> (record:
    EmailRecord)
    ensures
        record@ == email_row(id, user@.email, token, user_id),
{
    EmailRecord::new(id, user.email.clone(), token, user_id)
}

/// The credential row that a derivation outcome under `salt` gives.
pub open spec fn password_record_of(
    user_id: u128,
    id: u128,
    salt: Seq<char>,
    outcome: Result<Seq<char>, Seq<char>>,
) -> Result<PasswordRow, Failure> {
    match sealed(salt, outcome) {
        Ok(credential) => Ok(password_row(id, user_id, credential)),
        Err(failure) => Err(failure),
    }
}

/// Builds the credential row from a derivation outcome.
pub fn password_record_from(
    user_id: u128,
    id: u128,
    salt: String,
    outcome: Result<String, String>,
) -> (r: Result<PasswordRecord, UserCreationError>)
    ensures
        result_view(r) == password_record_of(
            user_id,
            id,
            salt@,
            crate::credential::outcome_view(outcome),
        ),
{
    match seal(salt, outcome) {
        Ok(credential) => Ok(PasswordRecord::new(id, user_id, credential)),
        Err(e) => Err(e),
    }
}

/// The credential row of a request: the hash of its password under `salt`.
pub fn create_password_record(user: &CreateUserDTO, user_id: u128, id: u128, salt: &String) -> (r:
    Result<PasswordRecord, UserCreationError>)
    ensures
        result_view(r) == password_record_of(
            user_id,
            id,
            salt@,
            argon2_phc(user@.password, salt@),
        ),
{
    let outcome = derive_hash(user.password.as_str(), salt.as_str());
    password_record_from(user_id, id, salt.clone(), outcome)
}

impl RegistrationView {
    /// A registration of `user` with nothing done yet.
    pub open spec fn start(user: CreateUser, base_url: Seq<char>, supplies: SuppliesView) -> Self {
        RegistrationView { stage: Stage::Start, user, base_url, supplies, failure: None }
    }

    /// The pair that the activation link carries.
    pub open spec fn link(self) -> ActiveEmailDTO {
        ActiveEmailDTO { token: self.supplies.token, user_id: self.supplies.account_id }
    }

    /// The activation link before it is checked.
    pub open spec fn raw_url(self) -> Seq<char> {
        activation_url(self.base_url, self.link())
    }

    /// What a finished registration reports.
    pub open spec fn summary(self) -> Summary {
        Summary {
            id: self.supplies.account_id,
            email_id: self.supplies.email_id,
            password_id: self.supplies.password_id,
            username: self.user.username,
            email: self.user.email,
        }
    }

    pub open spec fn at(self, stage: Stage) -> RegistrationView {
        RegistrationView { stage, ..self }
    }

    /// Goes on to `stage`, asking for `effect`.
    pub open spec fn proceed(self, stage: Stage, effect: EffectView) -> (
        RegistrationView,
        EffectView,
    ) {
        (self.at(stage), effect)
    }

    /// Ends with `result`.
    pub open spec fn finish(self, result: Result<Summary, Failure>) -> (
        RegistrationView,
        EffectView,
    ) {
        (self.at(Stage::Finished), EffectView::Finish(result))
    }

    /// Asks for the rollback and remembers why.
    pub open spec fn abort(self, failure: Failure) -> (RegistrationView, EffectView) {
        (
            RegistrationView { stage: Stage::Aborting, failure: Some(failure), ..self },
            EffectView::Rollback,
        )
    }

    /// The failure that a write's event stands for: a violated unique index
    /// on the username or on the address is that duplicate, anything else,
    /// a violated primary key too, a storage failure.
    pub open spec fn write_failure(event: EventView) -> Failure {
        match event {
            EventView::Failed(FaultView::UniqueViolation(UniqueIndex::Username, _)) =>
                Failure::DuplicateUsername,
            EventView::Failed(FaultView::UniqueViolation(UniqueIndex::Email, _)) =>
                Failure::DuplicateEmail,
            _ => Failure::Database(complaint(event)),
        }
    }

    /// The machine: the next state and the effect to carry out, given the
    /// answer to the last effect, the outcome of deriving the credential and
    /// the outcome of checking the activation link.
    pub open spec fn step(
        self,
        event: EventView,
        hash: Result<Seq<char>, Seq<char>>,
        url: Result<Seq<char>, Seq<char>>,
    ) -> (RegistrationView, EffectView) {
        let sup = self.supplies;
        match self.stage {
            Stage::Start => self.proceed(
                Stage::CheckingUsername,
                EffectView::FindUser(self.user.username),
            ),
            Stage::CheckingUsername => match event {
                EventView::Lookup(found) => match existing(found, false) {
                    Err(failure) => self.finish(Err(failure)),
                    Ok(()) => self.proceed(
                        Stage::CheckingEmail,
                        EffectView::FindEmail(self.user.email),
                    ),
                },
                _ => self.finish(Err(Failure::Database(complaint(event)))),
            },
            Stage::CheckingEmail => match event {
                EventView::Lookup(found) => match existing(false, found) {
                    Err(failure) => self.finish(Err(failure)),
                    Ok(()) => self.proceed(Stage::Opening, EffectView::Begin),
                },
                _ => self.finish(Err(Failure::Database(complaint(event)))),
            },
            Stage::Opening => match event {
                EventView::Done => self.proceed(
                    Stage::WritingAccount,
                    EffectView::InsertUser(account_row(sup.account_id, self.user.username)),
                ),
                _ => self.finish(Err(Failure::Database(complaint(event)))),
            },
            Stage::WritingAccount => match event {
                EventView::Done => self.proceed(
                    Stage::WritingEmail,
                    EffectView::InsertEmail(
                        email_row(sup.email_id, self.user.email, sup.token, sup.account_id),
                    ),
                ),
                _ => self.abort(Self::write_failure(event)),
            },
            Stage::WritingEmail => match event {
                EventView::Done => match password_record_of(
                    sup.account_id,
                    sup.password_id,
                    sup.salt,
                    hash,
                ) {
                    Ok(row) => self.proceed(Stage::WritingPassword, EffectView::InsertPassword(row)),
                    Err(failure) => self.abort(failure),
                },
                _ => self.abort(Self::write_failure(event)),
            },
            Stage::WritingPassword => match event {
                EventView::Done => match address_of(url) {
                    Ok(address) => self.proceed(
                        Stage::Dispatching,
                        EffectView::SendEmail(
                            welcome(self.user.email, self.user.username, address),
                        ),
                    ),
                    Err(failure) => self.abort(failure),
                },
                _ => self.abort(Self::write_failure(event)),
            },
            Stage::Dispatching => match event {
                EventView::Done => self.proceed(Stage::Committing, EffectView::Commit),
                _ => self.abort(Failure::SendEmail(complaint(event))),
            },
            Stage::Committing => match event {
                EventView::Done => self.finish(Ok(self.summary())),
                _ => self.finish(Err(Failure::Database(complaint(event)))),
            },
            Stage::Aborting => match self.failure {
                Some(failure) => self.finish(Err(failure)),
                None => self.finish(Err(Failure::Database(unexpected()))),
            },
            Stage::Finished => self.finish(Err(Failure::Database(unexpected()))),
        }
    }

    /// The machine with the two outcomes as the outside crates give them.
    pub open spec fn next(self, event: EventView) -> (RegistrationView, EffectView) {
        self.step(
            event,
            argon2_phc(self.user.password, self.supplies.salt),
            absolute_uri(self.raw_url()),
        )
    }
}

impl Event {
    /// The message of an event that is not the awaited one.
    pub fn into_complaint(self) -> (message: String)
        ensures
            message@ == complaint(self@),
    {
        match self {
            Event::Failed(fault) => fault.into_message(),
            _ => String::from_str("unexpected event"),
        }
    }

    /// The failure of a write: the duplicate that a violated unique index on
    /// username or address names, a storage failure otherwise.
    pub fn into_write_failure(self) -> (failure: UserCreationError)
        ensures
            failure@ == RegistrationView::write_failure(self@),
    {
        match self {
            Event::Failed(Fault::UniqueViolation(UniqueIndex::Username, _)) =>
                UserCreationError::DuplicateUsername,
            Event::Failed(Fault::UniqueViolation(UniqueIndex::Email, _)) =>
                UserCreationError::DuplicateEmail,
            other => UserCreationError::DatabaseError(other.into_complaint()),
        }
    }
}

impl Registration {
    /// A registration of `user` with the given supplies, nothing done yet.
    pub fn with_supplies(user: CreateUserDTO, base_url: String, supplies: Supplies) -> (state:
        Registration)
        ensures
            state@ == RegistrationView::start(user@, base_url@, supplies@),
    {
        Registration { stage: Stage::Start, user, base_url, supplies, failure: None }
    }

    /// A registration of `user` with freshly drawn supplies.
    pub fn begin(user: CreateUserDTO, base_url: String) -> (state: Registration)
        ensures
            state@ == RegistrationView::start(user@, base_url@, state@.supplies),
            state@.supplies.drawn(),
    {
        Registration::with_supplies(user, base_url, Supplies::draw())
    }

    fn proceed(self, stage: Stage, effect: Effect) -> (out: (Registration, Effect))
        ensures
            (out.0@, out.1@) == self@.proceed(stage, effect@),
    {
        let mut state = self;
        state.stage = stage;
        (state, effect)
    }

    fn finish(self, result: Result<AccountSummary, UserCreationError>) -> (out: (
        Registration,
        Effect,
    ))
        ensures
            (out.0@, out.1@) == self@.finish(result_view(result)),
    {
        let mut state = self;
        state.stage = Stage::Finished;
        (state, Effect::Finish(result))
    }

    fn abort(self, failure: UserCreationError) -> (out: (Registration, Effect))
        ensures
            (out.0@, out.1@) == self@.abort(failure@),
    {
        let mut state = self;
        state.stage = Stage::Aborting;
        state.failure = Some(failure);
        (state, Effect::Rollback)
    }

    fn summary(&self) -> (summary: AccountSummary)
        ensures
            summary@ == self@.summary(),
    {
        AccountSummary {
            id: self.supplies.account_id,
            email_id: self.supplies.email_id,
            password_id: self.supplies.password_id,
            username: self.user.username.clone(),
            email: self.user.email.clone(),
        }
    }

    /// The activation link of this registration, before it is checked.
    pub fn raw_url(&self) -> (url: String)
        ensures
            url@ == self@.raw_url(),
    {
        let link = ActiveEmailDTO {
            token: self.supplies.token,
            user_id: self.supplies.account_id,
        };
        build_activation_url(self.base_url.as_str(), &link)
    }

    /// The welcome mail around a checked link, or the failure of the check.
    fn activation_email(&self, url: Result<String, String>) -> (r: Result<
        ActivationEmail,
        UserCreationError,
    >)
        ensures
            result_view(r) == match address_of(crate::credential::outcome_view(url)) {
                Ok(address) => Ok(welcome(self@.user.email, self@.user.username, address)),
                Err(failure) => Err(failure),
            },
    {
        match address_from(url) {
            Ok(address) => Ok(
                ActivationEmail::compose(
                    self.user.email.clone(),
                    self.user.username.clone(),
                    address,
                ),
            ),
            Err(e) => Err(e),
        }
    }
}

/// The machine's step with the two outside outcomes handed in: what
/// deriving the credential gave, and what checking the activation link
/// gave. Each is read at the one step that needs it.
pub fn advance(
    state: Registration,
    event: Event,
    hash: Result<String, String>,
    url: Result<String, String>,
) -> (out: (Registration, Effect))
    ensures
        (out.0@, out.1@) == state@.step(
            event@,
            crate::credential::outcome_view(hash),
            crate::credential::outcome_view(url),
        ),
{
    match state.stage {
        Stage::Start => {
            let name = state.user.username.clone();
            state.proceed(Stage::CheckingUsername, Effect::FindUser(name))
        },
        Stage::CheckingUsername => match event {
            Event::Lookup(found) => match check_existing_user(found, false) {
                Err(e) => state.finish(Err(e)),
                Ok(()) => {
                    let key = state.user.email.clone();
                    state.proceed(Stage::CheckingEmail, Effect::FindEmail(key))
                },
            },
            other => state.finish(Err(UserCreationError::DatabaseError(other.into_complaint()))),
        },
        Stage::CheckingEmail => match event {
            Event::Lookup(found) => match check_existing_user(false, found) {
                Err(e) => state.finish(Err(e)),
                Ok(()) => state.proceed(Stage::Opening, Effect::Begin),
            },
            other => state.finish(Err(UserCreationError::DatabaseError(other.into_complaint()))),
        },
        Stage::Opening => match event {
            Event::Done => {
                let record = create_user_record(&state.user, state.supplies.account_id);
                state.proceed(Stage::WritingAccount, Effect::InsertUser(record))
            },
            other => state.finish(Err(UserCreationError::DatabaseError(other.into_complaint()))),
        },
        Stage::WritingAccount => match event {
            Event::Done => {
                let record = create_email_record(
                    &state.user,
                    state.supplies.account_id,
                    state.supplies.email_id,
                    state.supplies.token,
                );
                state.proceed(Stage::WritingEmail, Effect::InsertEmail(record))
            },
            other => state.abort(other.into_write_failure()),
        },
        Stage::WritingEmail => match event {
            Event::Done => match password_record_from(
                state.supplies.account_id,
                state.supplies.password_id,
                state.supplies.salt.clone(),
                hash,
            ) {
                Ok(record) => state.proceed(Stage::WritingPassword, Effect::InsertPassword(record)),
                Err(e) => state.abort(e),
            },
            other => state.abort(other.into_write_failure()),
        },
        Stage::WritingPassword => match event {
            Event::Done => match state.activation_email(url) {
                Ok(mail) => state.proceed(Stage::Dispatching, Effect::SendEmail(mail)),
                Err(e) => state.abort(e),
            },
            other => state.abort(other.into_write_failure()),
        },
        Stage::Dispatching => match event {
            Event::Done => state.proceed(Stage::Committing, Effect::Commit),
            other => state.abort(UserCreationError::SendEmailError(other.into_complaint())),
        },
        Stage::Committing => match event {
            Event::Done => {
                let summary = state.summary();
                state.finish(Ok(summary))
            },
            other => state.finish(Err(UserCreationError::DatabaseError(other.into_complaint()))),
        },
        Stage::Aborting => {
            let mut state = state;
            match state.failure.take() {
                Some(e) => {
                    let copy = e.duplicate();
                    state.failure = Some(e);
                    state.finish(Err(copy))
                },
                None => state.finish(
                    Err(UserCreationError::DatabaseError(String::from_str("unexpected event"))),
                ),
            }
        },
        Stage::Finished => state.finish(
            Err(UserCreationError::DatabaseError(String::from_str("unexpected event"))),
        ),
    }
}

/// Advances a registration by one step: takes the answer to the effect that
/// the last step asked for, and says what to do next. The credential is
/// derived when the email row is written, the activation link is checked
/// when the credential row is written, and neither at any other step.
pub fn action(state: Registration, event: Event) -> (out: (Registration, Effect))
    ensures
        (out.0@, out.1@) == state@.next(event@),
{
    let hash = match (state.stage, &event) {
        (Stage::WritingEmail, Event::Done) => derive_hash(
            state.user.password.as_str(),
            state.supplies.salt.as_str(),
        ),
        _ => Err(String::new()),
    };
    let url = match (state.stage, &event) {
        (Stage::WritingPassword, Event::Done) => parse_url(state.raw_url().as_str()),
        _ => Err(String::new()),
    };
    advance(state, event, hash, url)
}

} // verus!
