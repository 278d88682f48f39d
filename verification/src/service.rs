//! Registration run to its end against the store model and a model of the
//! mail transport: every effect the machine asks for is carried out, and the
//! answer is handed back to it.

use vstd::prelude::*;
use vstd::string::*;
use crate::activation::{absolute_uri, welcome, ActivationEmail, Mail};
use crate::create_user::{
    action, unexpected, Effect, EffectView, Event, EventView, Registration, RegistrationView,
    Stage, Supplies, SuppliesView,
};
use crate::credential::{argon2_phc, CredentialView};
use crate::dto::{CreateUser, CreateUserDTO};
use crate::error::{result_view, Failure, UserCreationError};
use crate::records::{account_row, email_row, password_row, AccountSummary, Summary};
use crate::store::{
    already_open, done_view, id_taken, Fault, FaultView, Store, StoreView, Tables,
};

verus! {

/// A model of the mail transport: it delivers every email, or refuses every
/// email with one message.
pub struct Outbox {
    refusal: Option<String>,
    sent: Vec<ActivationEmail>,
}

pub struct OutboxView {
    pub refusal: Option<Seq<char>>,
    pub sent: Seq<Mail>,
}

pub open spec fn mails(sent: Seq<ActivationEmail>) -> Seq<Mail> {
    sent.map_values(|mail: ActivationEmail| mail@)
}

impl View for Outbox {
    type V = OutboxView;

    closed spec fn view(&self) -> OutboxView {
        OutboxView {
            refusal: match self.refusal {
                Some(message) => Some(message@),
                None => None,
            },
            sent: mails(self.sent@),
        }
    }
}

impl OutboxView {
    pub open spec fn deliver(self, mail: Mail) -> (OutboxView, Result<(), FaultView>) {
        match self.refusal {
            Some(message) => (self, Err(FaultView::Other(message))),
            None => (OutboxView { refusal: None, sent: self.sent.push(mail) }, Ok(())),
        }
    }
}

impl Outbox {
    /// A transport that delivers.
    pub fn delivering() -> (outbox: Outbox)
        ensures
            outbox@ == (OutboxView { refusal: None, sent: Seq::empty() }),
    {
        let outbox = Outbox { refusal: None, sent: Vec::new() };
        assert(outbox@.sent =~= Seq::empty());
        outbox
    }

    /// A transport that refuses every email with `message`.
    pub fn refusing(message: String) -> (outbox: Outbox)
        ensures
            outbox@ == (OutboxView { refusal: Some(message@), sent: Seq::empty() }),
    {
        let outbox = Outbox { refusal: Some(message), sent: Vec::new() };
        assert(outbox@.sent =~= Seq::empty());
        outbox
    }

    /// The emails delivered so far.
    pub fn sent(&self) -> (sent: &Vec<ActivationEmail>)
        ensures
            mails(sent@) == self@.sent,
    {
        &self.sent
    }

    /// Sends one email.
    pub fn deliver(&mut self, mail: ActivationEmail) -> (r: Result<(), Fault>)
        ensures
            (final(self)@, done_view(r)) == old(self)@.deliver(mail@),
    {
        match &self.refusal {
            Some(message) => Err(Fault::Other(message.clone())),
            None => {
                self.sent.push(mail);
                assert(self@.sent =~= old(self)@.sent.push(mail@));
                Ok(())
            },
        }
    }
}

/// The event that an operation's result is.
pub open spec fn event_of(r: Result<(), FaultView>) -> EventView {
    match r {
        Ok(()) => EventView::Done,
        Err(fault) => EventView::Failed(fault),
    }
}

/// Everything outside the machine: the store and the mail transport.
pub struct World {
    pub store: StoreView,
    pub outbox: OutboxView,
}

impl World {
    /// Carries out one effect: the world after it, and the answer.
    pub open spec fn respond(self, effect: EffectView) -> (World, EventView) {
        match effect {
            EffectView::FindUser(name) => (
                self,
                EventView::Lookup(self.store.committed.has_username(name)),
            ),
            EffectView::FindEmail(key) => (
                self,
                EventView::Lookup(self.store.committed.has_email(key)),
            ),
            EffectView::Begin => {
                let (store, r) = self.store.begin();
                (World { store, outbox: self.outbox }, event_of(r))
            },
            EffectView::InsertUser(row) => {
                let (store, r) = self.store.insert_account(row);
                (World { store, outbox: self.outbox }, event_of(r))
            },
            EffectView::InsertEmail(row) => {
                let (store, r) = self.store.insert_email(row);
                (World { store, outbox: self.outbox }, event_of(r))
            },
            EffectView::InsertPassword(row) => {
                let (store, r) = self.store.insert_password(row);
                (World { store, outbox: self.outbox }, event_of(r))
            },
            EffectView::SendEmail(mail) => {
                let (outbox, r) = self.outbox.deliver(mail);
                (World { store: self.store, outbox }, event_of(r))
            },
            EffectView::Commit => {
                let (store, r) = self.store.commit();
                (World { store, outbox: self.outbox }, event_of(r))
            },
            EffectView::Rollback => (
                World { store: self.store.rollback(), outbox: self.outbox },
                EventView::Done,
            ),
            EffectView::Finish(_) => (self, EventView::Done),
        }
    }
}

fn event_from(r: Result<(), Fault>) -> (event: Event)
    ensures
        event@ == event_of(done_view(r)),
{
    match r {
        Ok(()) => Event::Done,
        Err(fault) => Event::Failed(fault),
    }
}

/// Carries out one effect on the store and the transport.
pub fn perform(store: &mut Store, outbox: &mut Outbox, effect: Effect) -> (event: Event)
    ensures
        (World { store: final(store)@, outbox: final(outbox)@ }, event@) == (World {
            store: old(store)@,
            outbox: old(outbox)@,
        }).respond(effect@),
{
    match effect {
        Effect::FindUser(name) => Event::Lookup(store.has_username(&name)),
        Effect::FindEmail(key) => Event::Lookup(store.has_email(&key)),
        Effect::Begin => event_from(store.begin()),
        Effect::InsertUser(record) => event_from(store.insert_account(record)),
        Effect::InsertEmail(record) => event_from(store.insert_email(record)),
        Effect::InsertPassword(record) => event_from(store.insert_password(record)),
        Effect::SendEmail(mail) => event_from(outbox.deliver(mail)),
        Effect::Commit => event_from(store.commit()),
        Effect::Rollback => {
            store.rollback();
            Event::Done
        },
        Effect::Finish(_) => Event::Done,
    }
}

/// How the world is left, and what the caller is told.
pub struct Outcome {
    pub world: World,
    pub result: Result<Summary, Failure>,
}

/// An upper bound on the steps that a registration at `stage` still takes.
pub open spec fn remaining(stage: Stage) -> nat {
    match stage {
        Stage::Start => 10,
        Stage::CheckingUsername => 9,
        Stage::CheckingEmail => 8,
        Stage::Opening => 7,
        Stage::WritingAccount => 6,
        Stage::WritingEmail => 5,
        Stage::WritingPassword => 4,
        Stage::Dispatching => 3,
        Stage::Committing => 2,
        Stage::Aborting => 1,
        Stage::Finished => 0,
    }
}

/// The machine run against the world until it finishes.
pub open spec fn run(
    world: World,
    state: RegistrationView,
    event: EventView,
    hash: Result<Seq<char>, Seq<char>>,
    url: Result<Seq<char>, Seq<char>>,
) -> Outcome
    decreases remaining(state.stage),
{
    let (after, effect) = state.step(event, hash, url);
    match effect {
        EffectView::Finish(result) => Outcome { world, result },
        _ => if remaining(after.stage) < remaining(state.stage) {
            let (next, answer) = world.respond(effect);
            run(next, after, answer, hash, url)
        } else {
            Outcome { world, result: Err(Failure::Database(unexpected())) }
        },
    }
}

/// Every step either finishes or leaves fewer steps to take.
pub proof fn lemma_step_advances(
    state: RegistrationView,
    event: EventView,
    hash: Result<Seq<char>, Seq<char>>,
    url: Result<Seq<char>, Seq<char>>,
)
    ensures
        state.step(event, hash, url).1 is Finish || remaining(state.step(event, hash, url).0.stage)
            < remaining(state.stage),
{
}

/// Drives a registration to its end, starting with the answer `event`.
#[verifier::loop_isolation(false)]
pub fn drive(store: &mut Store, outbox: &mut Outbox, state: Registration, event: Event) -> (r:
    Result<AccountSummary, UserCreationError>)
    ensures
        ({
            let outcome = run(
                World { store: old(store)@, outbox: old(outbox)@ },
                state@,
                event@,
                argon2_phc(state@.user.password, state@.supplies.salt),
                absolute_uri(state@.raw_url()),
            );
            &&& final(store)@ == outcome.world.store
            &&& final(outbox)@ == outcome.world.outbox
            &&& result_view(r) == outcome.result
        }),
{
    let ghost start = state@;
    let ghost first = event@;
    let ghost origin = World { store: store@, outbox: outbox@ };
    let ghost hash = argon2_phc(start.user.password, start.supplies.salt);
    let ghost url = absolute_uri(start.raw_url());
    let mut state = state;
    let mut event = event;
    loop
        invariant
            state@.user == start.user,
            state@.base_url == start.base_url,
            state@.supplies == start.supplies,
            run(World { store: store@, outbox: outbox@ }, state@, event@, hash, url) == run(
                origin,
                start,
                first,
                hash,
                url,
            ),
        decreases remaining(state@.stage),
    {
        let ghost world = World { store: store@, outbox: outbox@ };
        let ghost before = state@;
        let ghost answer = event@;
        proof {
            lemma_step_advances(before, answer, hash, url);
        }
        let (after, effect) = action(state, event);
        match effect {
            Effect::Finish(result) => {
                assert(before.step(answer, hash, url).1 == EffectView::Finish(
                    result_view(result),
                ));
                assert(run(origin, start, first, hash, url) == Outcome {
                    world,
                    result: result_view(result),
                });
                return result;
            },
            other => {
                state = after;
                event = perform(store, outbox, other);
            },
        }
    }
}

} // verus!

verus! {

/// The three rows that a registration writes.
pub open spec fn rows(state: RegistrationView, hash: Seq<char>) -> Tables {
    let sup = state.supplies;
    Tables {
        accounts: Seq::empty().push(account_row(sup.account_id, state.user.username)),
        emails: Seq::empty().push(
            email_row(sup.email_id, state.user.email, sup.token, sup.account_id),
        ),
        passwords: Seq::empty().push(
            password_row(sup.password_id, sup.account_id, CredentialView { hash, salt: sup.salt }),
        ),
    }
}

impl World {
    /// The world unchanged, and a failure.
    pub open spec fn refused(self, failure: Failure) -> Outcome {
        Outcome { world: self, result: Err(failure) }
    }

    /// What becomes of a registration that passed the uniqueness check, once
    /// its transaction is asked for. The indexes decide again as each row is
    /// written: the account's username and then its identifier, the email's
    /// address and then its identifier. Then the credential is derived and
    /// its row's identifier is judged, and last the activation link and the
    /// transport decide. Only where all agree are the three rows committed
    /// and the email sent.
    pub open spec fn written(
        self,
        state: RegistrationView,
        hash: Result<Seq<char>, Seq<char>>,
        url: Result<Seq<char>, Seq<char>>,
    ) -> Outcome {
        let committed = self.store.committed;
        let sup = state.supplies;
        if self.store.pending is Some {
            self.refused(Failure::Database(already_open()))
        } else if committed.has_username(state.user.username) {
            self.refused(Failure::DuplicateUsername)
        } else if committed.has_account_id(sup.account_id) {
            self.refused(Failure::Database(id_taken()))
        } else if committed.has_email(state.user.email) {
            self.refused(Failure::DuplicateEmail)
        } else if committed.has_email_id(sup.email_id) {
            self.refused(Failure::Database(id_taken()))
        } else {
            match hash {
                Err(message) => self.refused(Failure::PasswordHashing(message)),
                Ok(hash) => if committed.has_password_id(sup.password_id) {
                    self.refused(Failure::Database(id_taken()))
                } else {
                    match url {
                        Err(message) => self.refused(Failure::SendEmail(message)),
                        Ok(address) => match self.outbox.refusal {
                            Some(message) => self.refused(Failure::SendEmail(message)),
                            None => Outcome {
                                world: World {
                                    store: StoreView {
                                        committed: committed.plus(rows(state, hash)),
                                        pending: None,
                                    },
                                    outbox: OutboxView {
                                        refusal: None,
                                        sent: self.outbox.sent.push(
                                            welcome(
                                                state.user.email,
                                                state.user.username,
                                                address,
                                            ),
                                        ),
                                    },
                                },
                                result: Ok(state.summary()),
                            },
                        },
                    }
                },
            }
        }
    }

    /// What becomes of a registration: the uniqueness check first, username
    /// before email, then the write.
    pub open spec fn registered(
        self,
        state: RegistrationView,
        hash: Result<Seq<char>, Seq<char>>,
        url: Result<Seq<char>, Seq<char>>,
    ) -> Outcome {
        if self.store.committed.has_username(state.user.username) {
            self.refused(Failure::DuplicateUsername)
        } else if self.store.committed.has_email(state.user.email) {
            self.refused(Failure::DuplicateEmail)
        } else {
            self.written(state, hash, url)
        }
    }
}

/// A registration that waits for its transaction runs to what `written` says.
pub proof fn lemma_write_phase(
    world: World,
    state: RegistrationView,
    hash: Result<Seq<char>, Seq<char>>,
    url: Result<Seq<char>, Seq<char>>,
)
    requires
        state.stage == Stage::Opening,
    ensures
        run(
            world.respond(EffectView::Begin).0,
            state,
            world.respond(EffectView::Begin).1,
            hash,
            url,
        ) == world.written(state, hash, url),
{
    reveal_with_fuel(run, 8);
}

/// A registration run from its start ends as `registered` says, whatever
/// event starts it.
pub proof fn lemma_registration(
    world: World,
    state: RegistrationView,
    event: EventView,
    hash: Result<Seq<char>, Seq<char>>,
    url: Result<Seq<char>, Seq<char>>,
)
    requires
        state.stage == Stage::Start,
    ensures
        run(world, state, event, hash, url) == world.registered(state, hash, url),
{
    reveal_with_fuel(run, 4);
    lemma_write_phase(world, state.at(Stage::Opening), hash, url);
}

} // verus!

verus! {

impl World {
    /// Whether a registration that starts as `state` in this world leaves
    /// the world as `after` and tells the caller `result`.
    pub open spec fn registers(
        self,
        state: RegistrationView,
        after: World,
        result: Result<Summary, Failure>,
    ) -> bool {
        Outcome { world: after, result } == self.registered(
            state,
            argon2_phc(state.user.password, state.supplies.salt),
            absolute_uri(state.raw_url()),
        )
    }

    /// Whether a registration that waits for its transaction as `state` in
    /// this world leaves the world as `after` and tells the caller `result`.
    pub open spec fn writes(
        self,
        state: RegistrationView,
        after: World,
        result: Result<Summary, Failure>,
    ) -> bool {
        Outcome { world: after, result } == self.written(
            state,
            argon2_phc(state.user.password, state.supplies.salt),
            absolute_uri(state.raw_url()),
        )
    }
}

/// Registers `user` with the given supplies: checks that username and email
/// are unused, writes the three rows in one transaction, sends the
/// activation email and commits. On any failure the store is left as it was
/// and no email is sent.
pub fn register_with(
    store: &mut Store,
    outbox: &mut Outbox,
    user: CreateUserDTO,
    base_url: String,
    supplies: Supplies,
) -> (r: Result<AccountSummary, UserCreationError>)
    ensures
        (World { store: old(store)@, outbox: old(outbox)@ }).registers(
            RegistrationView::start(user@, base_url@, supplies@),
            World { store: final(store)@, outbox: final(outbox)@ },
            result_view(r),
        ),
{
    let state = Registration::with_supplies(user, base_url, supplies);
    proof {
        lemma_registration(
            World { store: store@, outbox: outbox@ },
            state@,
            EventView::Started,
            argon2_phc(state@.user.password, state@.supplies.salt),
            absolute_uri(state@.raw_url()),
        );
    }
    drive(store, outbox, state, Event::Started)
}

/// Registers `user` with supplies drawn for this call.
pub fn register(store: &mut Store, outbox: &mut Outbox, user: CreateUserDTO, base_url: String) -> (r:
    Result<AccountSummary, UserCreationError>)
    ensures
        exists|supplies: SuppliesView|
            supplies.drawn() && (World { store: old(store)@, outbox: old(outbox)@ }).registers(
                #[trigger] RegistrationView::start(user@, base_url@, supplies),
                World { store: final(store)@, outbox: final(outbox)@ },
                result_view(r),
            ),
{
    let supplies = Supplies::draw();
    let ghost drawn = supplies@;
    let r = register_with(store, outbox, user, base_url, supplies);
    assert((World { store: old(store)@, outbox: old(outbox)@ }).registers(
        RegistrationView::start(user@, base_url@, drawn),
        World { store: store@, outbox: outbox@ },
        result_view(r),
    ));
    r
}

/// The view of a check's result.
pub open spec fn checked_view(r: Result<Registration, UserCreationError>) -> Result<
    RegistrationView,
    Failure,
> {
    match r {
        Ok(state) => Ok(state@),
        Err(e) => Err(e@),
    }
}

/// What the uniqueness check makes of a registration: one that has not
/// started is stopped by a used username, then by a used email, and else
/// waits for its transaction.
pub open spec fn checked(committed: Tables, state: RegistrationView) -> Result<
    RegistrationView,
    Failure,
> {
    if state.stage != Stage::Start {
        Err(Failure::Database(unexpected()))
    } else if committed.has_username(state.user.username) {
        Err(Failure::DuplicateUsername)
    } else if committed.has_email(state.user.email) {
        Err(Failure::DuplicateEmail)
    } else {
        Ok(state.at(Stage::Opening))
    }
}

/// Runs the uniqueness check of a registration against what the store shows
/// now. The answer may be stale by the time the transaction opens: the
/// store's unique indexes decide then.
pub fn check(store: &Store, state: Registration) -> (r: Result<Registration, UserCreationError>)
    ensures
        checked_view(r) == checked(store@.committed, state@),
{
    if state.stage != Stage::Start {
        return Err(UserCreationError::DatabaseError(String::from_str("unexpected event")));
    }
    let (state, effect) = action(state, Event::Started);
    let found = match effect {
        Effect::FindUser(name) => store.has_username(&name),
        _ => false,
    };
    let (state, effect) = action(state, Event::Lookup(found));
    let found = match effect {
        Effect::FindEmail(key) => store.has_email(&key),
        Effect::Finish(Err(e)) => {
            return Err(e);
        },
        _ => false,
    };
    let (state, effect) = action(state, Event::Lookup(found));
    match effect {
        Effect::Finish(Err(e)) => Err(e),
        _ => Ok(state),
    }
}

/// Carries a registration that passed the check to its end: asks for the
/// transaction and drives the machine with the answer.
pub fn complete(store: &mut Store, outbox: &mut Outbox, state: Registration) -> (r: Result<
    AccountSummary,
    UserCreationError,
>)
    ensures
        state@.stage == Stage::Opening ==> (World {
            store: old(store)@,
            outbox: old(outbox)@,
        }).writes(state@, World { store: final(store)@, outbox: final(outbox)@ }, result_view(r)),
        ({
            let world = World { store: old(store)@, outbox: old(outbox)@ };
            Outcome {
                world: World { store: final(store)@, outbox: final(outbox)@ },
                result: result_view(r),
            } == run(
                world.respond(EffectView::Begin).0,
                state@,
                world.respond(EffectView::Begin).1,
                argon2_phc(state@.user.password, state@.supplies.salt),
                absolute_uri(state@.raw_url()),
            )
        }),
{
    proof {
        if state@.stage == Stage::Opening {
            lemma_write_phase(
                World { store: store@, outbox: outbox@ },
                state@,
                argon2_phc(state@.user.password, state@.supplies.salt),
                absolute_uri(state@.raw_url()),
            );
        }
    }
    let event = perform(store, outbox, Effect::Begin);
    drive(store, outbox, state, event)
}

} // verus!
