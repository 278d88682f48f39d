//! What holds of every registration, stated over the closed forms
//! `World::registered` and `World::written` that the executable functions
//! are proved to follow.

use vstd::prelude::*;
use crate::activation::welcome;
use crate::create_user::{EffectView, EventView, RegistrationView, Stage};
use crate::credential::{argon2_phc, CredentialView};
use crate::error::Failure;
use crate::records::{account_row, email_row, password_row};
use crate::service::{rows, Outcome, World};
use crate::store::{account_ids, email_ids, id_taken, keys, names, password_ids, Tables};

verus! {

/// A name that a row carries is one the table has.
pub proof fn lemma_pushed_username_is_held(tables: Tables, more: Tables, i: int)
    requires
        0 <= i < more.accounts.len(),
    ensures
        tables.plus(more).has_username(more.accounts[i].username),
{
    let all = names(tables.plus(more).accounts);
    assert(all[tables.accounts.len() + i] == more.accounts[i].username);
}

/// An address that a row carries is one the table has.
pub proof fn lemma_pushed_email_is_held(tables: Tables, more: Tables, i: int)
    requires
        0 <= i < more.emails.len(),
    ensures
        tables.plus(more).has_email(more.emails[i].key),
{
    let all = keys(tables.plus(more).emails);
    assert(all[tables.emails.len() + i] == more.emails[i].key);
}

/// Success. Where username and email are unused, the drawn identifiers are
/// those of no stored row, no transaction is open, the credential is
/// derived, the activation link is an absolute URL and the transport
/// delivers, the registration succeeds. It commits exactly one account row,
/// one email row that is not active, and one credential row, the last two
/// under the account's identifier, and sends one email with the checked
/// link.
pub proof fn lemma_unused_identity_registers(
    world: World,
    state: RegistrationView,
    hash: Seq<char>,
    address: Seq<char>,
)
    requires
        !world.store.committed.has_username(state.user.username),
        !world.store.committed.has_email(state.user.email),
        !world.store.committed.has_account_id(state.supplies.account_id),
        !world.store.committed.has_email_id(state.supplies.email_id),
        !world.store.committed.has_password_id(state.supplies.password_id),
        world.store.pending is None,
        world.outbox.refusal is None,
    ensures
        ({
            let before = world.store.committed;
            let sup = state.supplies;
            let outcome = world.registered(state, Ok(hash), Ok(address));
            let after = outcome.world.store.committed;
            &&& outcome.result == Ok::<_, Failure>(state.summary())
            &&& outcome.world.store.pending is None
            &&& after.accounts == before.accounts.push(
                account_row(sup.account_id, state.user.username),
            )
            &&& after.emails == before.emails.push(
                email_row(sup.email_id, state.user.email, sup.token, sup.account_id),
            )
            &&& after.passwords == before.passwords.push(
                password_row(
                    sup.password_id,
                    sup.account_id,
                    CredentialView { hash, salt: sup.salt },
                ),
            )
            &&& !after.emails.last().active
            &&& after.emails.last().user_id == after.accounts.last().id
            &&& after.passwords.last().user_id == after.accounts.last().id
            &&& outcome.world.outbox.sent == world.outbox.sent.push(
                welcome(state.user.email, state.user.username, address),
            )
        }),
{
    let before = world.store.committed;
    let added = rows(state, hash);
    assert(before.plus(added).accounts =~= before.accounts.push(added.accounts[0]));
    assert(before.plus(added).emails =~= before.emails.push(added.emails[0]));
    assert(before.plus(added).passwords =~= before.passwords.push(added.passwords[0]));
}

/// New rows have new identifiers. A registration succeeds only where the
/// identifiers of its three rows are those of no row stored before, and the
/// summary it returns carries them.
pub proof fn lemma_success_brings_new_identifiers(
    world: World,
    state: RegistrationView,
    hash: Result<Seq<char>, Seq<char>>,
    url: Result<Seq<char>, Seq<char>>,
)
    ensures
        world.registered(state, hash, url).result matches Ok(summary) ==> {
            &&& summary == state.summary()
            &&& !world.store.committed.has_account_id(summary.id)
            &&& !world.store.committed.has_email_id(summary.email_id)
            &&& !world.store.committed.has_password_id(summary.password_id)
        },
{
}

/// A used username. Where an account with the username exists, the
/// registration fails with `DuplicateUsername`, whatever else holds, and
/// changes nothing.
pub proof fn lemma_used_username_is_refused(
    world: World,
    state: RegistrationView,
    hash: Result<Seq<char>, Seq<char>>,
    url: Result<Seq<char>, Seq<char>>,
)
    requires
        world.store.committed.has_username(state.user.username),
    ensures
        world.registered(state, hash, url) == world.refused(Failure::DuplicateUsername),
{
}

/// A used email. Where the username is unused and an email identity with the
/// address exists, the registration fails with `DuplicateEmail` and changes
/// nothing.
pub proof fn lemma_used_email_is_refused(
    world: World,
    state: RegistrationView,
    hash: Result<Seq<char>, Seq<char>>,
    url: Result<Seq<char>, Seq<char>>,
)
    requires
        !world.store.committed.has_username(state.user.username),
        world.store.committed.has_email(state.user.email),
    ensures
        world.registered(state, hash, url) == world.refused(Failure::DuplicateEmail),
{
}

/// All or nothing. A registration that fails, for whatever reason, leaves
/// the store and the transport as they were.
pub proof fn lemma_failure_persists_nothing(
    world: World,
    state: RegistrationView,
    hash: Result<Seq<char>, Seq<char>>,
    url: Result<Seq<char>, Seq<char>>,
)
    ensures
        world.registered(state, hash, url).result is Err ==> world.registered(
            state,
            hash,
            url,
        ).world == world,
        world.written(state, hash, url).result is Err ==> world.written(state, hash, url).world
            == world,
{
}

/// Failed dispatch. Where the transport refuses the email, the registration
/// fails and no row of any of the three tables is persisted.
pub proof fn lemma_refused_email_persists_nothing(
    world: World,
    state: RegistrationView,
    hash: Result<Seq<char>, Seq<char>>,
    url: Result<Seq<char>, Seq<char>>,
)
    requires
        world.outbox.refusal is Some,
    ensures
        world.registered(state, hash, url).result is Err,
        world.registered(state, hash, url).world == world,
{
}

/// The check decides nothing that the write would not. With no transaction
/// open and an account identifier that no stored row has, a registration
/// that skips the uniqueness check ends as one that ran it.
pub proof fn lemma_check_is_an_optimization(
    world: World,
    state: RegistrationView,
    hash: Result<Seq<char>, Seq<char>>,
    url: Result<Seq<char>, Seq<char>>,
)
    requires
        world.store.pending is None,
        !world.store.committed.has_account_id(state.supplies.account_id),
    ensures
        world.registered(state, hash, url) == world.written(state, hash, url),
{
}

/// A race never has two winners. Of two registrations with one username
/// that both passed the check and then write one after the other, at most
/// one succeeds, and after a success the other is told `DuplicateUsername`
/// and changes nothing.
pub proof fn lemma_race_never_two_winners(
    world: World,
    first: RegistrationView,
    second: RegistrationView,
    first_hash: Result<Seq<char>, Seq<char>>,
    first_url: Result<Seq<char>, Seq<char>>,
    second_hash: Result<Seq<char>, Seq<char>>,
    second_url: Result<Seq<char>, Seq<char>>,
)
    requires
        first.user.username == second.user.username,
    ensures
        ({
            let won = world.written(first, first_hash, first_url);
            let lost = won.world.written(second, second_hash, second_url);
            &&& !(won.result is Ok && lost.result is Ok)
            &&& won.result is Ok ==> lost == won.world.refused(Failure::DuplicateUsername)
        }),
{
    let won = world.written(first, first_hash, first_url);
    if won.result is Ok {
        lemma_pushed_username_is_held(world.store.committed, rows(first, first_hash->Ok_0), 0);
    }
}

/// A race has a winner. Where the username and the first writer's email are
/// unused, the first writer's identifiers are those of no stored row, no
/// transaction is open, and credential, link and transport serve the first
/// writer, the first succeeds and the second is told `DuplicateUsername`.
pub proof fn lemma_race_has_one_winner(
    world: World,
    first: RegistrationView,
    second: RegistrationView,
    first_hash: Seq<char>,
    first_address: Seq<char>,
    second_hash: Result<Seq<char>, Seq<char>>,
    second_url: Result<Seq<char>, Seq<char>>,
)
    requires
        first.user.username == second.user.username,
        !world.store.committed.has_username(first.user.username),
        !world.store.committed.has_email(first.user.email),
        !world.store.committed.has_account_id(first.supplies.account_id),
        !world.store.committed.has_email_id(first.supplies.email_id),
        !world.store.committed.has_password_id(first.supplies.password_id),
        world.store.pending is None,
        world.outbox.refusal is None,
    ensures
        ({
            let won = world.written(first, Ok(first_hash), Ok(first_address));
            let lost = won.world.written(second, second_hash, second_url);
            &&& won.result == Ok::<_, Failure>(first.summary())
            &&& lost == won.world.refused(Failure::DuplicateUsername)
        }),
{
    lemma_race_never_two_winners(
        world,
        first,
        second,
        Ok(first_hash),
        Ok(first_address),
        second_hash,
        second_url,
    );
}

} // verus!

verus! {

/// A value that a sequence lacks can follow it without a repeat.
pub proof fn lemma_new_value_keeps_uniqueness<A>(values: Seq<A>, value: A)
    requires
        values.no_duplicates(),
        !values.contains(value),
    ensures
        values.push(value).no_duplicates(),
{
    let more = values.push(value);
    assert forall|i: int, j: int| 0 <= i < more.len() && 0 <= j < more.len() && i
        != j implies more[i] != more[j] by {
        if i < values.len() && j < values.len() {
            assert(values[i] != values[j]);
        } else if i < values.len() {
            assert(values[i] != value);
        } else {
            assert(values[j] != value);
        }
    }
}

/// The unique indexes survive. A registration in a store whose usernames,
/// email addresses and identifiers are unique leaves them unique.
pub proof fn lemma_registration_keeps_indexes(
    world: World,
    state: RegistrationView,
    hash: Result<Seq<char>, Seq<char>>,
    url: Result<Seq<char>, Seq<char>>,
)
    requires
        world.store.well_formed(),
    ensures
        world.registered(state, hash, url).world.store.well_formed(),
        world.written(state, hash, url).world.store.well_formed(),
{
    lemma_failure_persists_nothing(world, state, hash, url);
    let outcome = world.written(state, hash, url);
    if outcome.result is Ok {
        let before = world.store.committed;
        let after = outcome.world.store.committed;
        let sup = state.supplies;
        assert(names(after.accounts) =~= names(before.accounts).push(state.user.username));
        assert(keys(after.emails) =~= keys(before.emails).push(state.user.email));
        assert(account_ids(after.accounts) =~= account_ids(before.accounts).push(sup.account_id));
        assert(email_ids(after.emails) =~= email_ids(before.emails).push(sup.email_id));
        assert(password_ids(after.passwords) =~= password_ids(before.passwords).push(
            sup.password_id,
        ));
        lemma_new_value_keeps_uniqueness(names(before.accounts), state.user.username);
        lemma_new_value_keeps_uniqueness(keys(before.emails), state.user.email);
        lemma_new_value_keeps_uniqueness(account_ids(before.accounts), sup.account_id);
        lemma_new_value_keeps_uniqueness(email_ids(before.emails), sup.email_id);
        lemma_new_value_keeps_uniqueness(password_ids(before.passwords), sup.password_id);
    }
}

/// A race for an address never has two winners either. Of two registrations
/// with one email that write one after the other, at most one succeeds, and
/// after a success the other is refused as a duplicate and changes nothing.
pub proof fn lemma_email_race_never_two_winners(
    world: World,
    first: RegistrationView,
    second: RegistrationView,
    first_hash: Result<Seq<char>, Seq<char>>,
    first_url: Result<Seq<char>, Seq<char>>,
    second_hash: Result<Seq<char>, Seq<char>>,
    second_url: Result<Seq<char>, Seq<char>>,
)
    requires
        first.user.email == second.user.email,
    ensures
        ({
            let won = world.written(first, first_hash, first_url);
            let lost = won.world.written(second, second_hash, second_url);
            &&& !(won.result is Ok && lost.result is Ok)
            &&& won.result is Ok ==> lost.world == won.world && (lost.result == Err::<
                crate::records::Summary,
                Failure,
            >(Failure::DuplicateEmail) || lost.result == Err::<crate::records::Summary, Failure>(
                Failure::DuplicateUsername,
            ) || lost.result == Err::<crate::records::Summary, Failure>(
                Failure::Database(id_taken()),
            ))
        }),
{
    let won = world.written(first, first_hash, first_url);
    if won.result is Ok {
        lemma_pushed_email_is_held(world.store.committed, rows(first, first_hash->Ok_0), 0);
    }
}

/// The stored credential derives again. After a successful registration the
/// credential row that it wrote holds the registration's salt and the hash
/// that the secret gives under that salt.
pub proof fn lemma_stored_credential_rederives(
    world: World,
    state: RegistrationView,
    after: World,
    result: Result<crate::records::Summary, Failure>,
)
    ensures
        world.registers(state, after, result) && result is Ok ==> {
            let row = after.store.committed.passwords.last();
            &&& row.salt == state.supplies.salt
            &&& row.user_id == state.supplies.account_id
            &&& row.reset_token is None
            &&& argon2_phc(state.user.password, row.salt) == Ok::<Seq<char>, Seq<char>>(row.hash)
        },
{
}

/// Only the commit publishes. Whatever else the machine asks for leaves the
/// rows that readers see as they were, so that no reader ever sees part of
/// an account.
pub proof fn lemma_only_commit_publishes(world: World, effect: EffectView)
    requires
        !(effect is Commit),
    ensures
        world.respond(effect).0.store.committed == world.store.committed,
{
}

/// Inside the transaction every failure rolls back. From the first write to
/// the dispatch of the email, an answer other than success makes the
/// machine ask for the rollback, and after the rollback it ends with a
/// failure; it never asks for the commit.
pub proof fn lemma_failure_inside_the_transaction_rolls_back(
    state: RegistrationView,
    event: EventView,
    after_rollback: EventView,
    hash: Result<Seq<char>, Seq<char>>,
    url: Result<Seq<char>, Seq<char>>,
)
    requires
        state.stage == Stage::WritingAccount || state.stage == Stage::WritingEmail || state.stage
            == Stage::WritingPassword || state.stage == Stage::Dispatching,
        !(event is Done),
    ensures
        state.step(event, hash, url).1 is Rollback,
        state.step(event, hash, url).0.stage == Stage::Aborting,
        state.step(event, hash, url).0.step(after_rollback, hash, url).1 matches EffectView::Finish(
            result,
        ) && result is Err,
{
}

} // verus!
