use user_registration::create_user::{
    action, advance, check_existing_user, create_email_record, create_password_record, create_user_record,
    password_record_from, Effect, Event, Registration, Stage, Supplies,
};
use user_registration::credential::derive_hash;
use user_registration::dto::CreateUserDTO;
use user_registration::error::UserCreationError;
use user_registration::store::{Fault, UniqueIndex};

const ACCOUNT: u128 = 0x00000000_0000_4000_8000_000000000001;
const EMAIL: u128 = 0x00000000_0000_4000_8000_000000000002;
const TOKEN: u128 = 0x00000000_0000_4000_8000_000000000003;
const PASSWORD: u128 = 0x00000000_0000_4000_8000_000000000004;
const SALT: &str = "c29tZXNhbHRzb21lc2FsdA";
const BASE: &str = "https://app.example.com";

fn alice() -> CreateUserDTO {
    CreateUserDTO {
        username: String::from("alice"),
        email: String::from("alice@example.com"),
        password: String::from("secret1"),
    }
}

fn supplies(salt: &str) -> Supplies {
    Supplies {
        account_id: ACCOUNT,
        email_id: EMAIL,
        token: TOKEN,
        password_id: PASSWORD,
        salt: String::from(salt),
    }
}

fn start(base: &str, salt: &str) -> Registration {
    Registration::with_supplies(alice(), String::from(base), supplies(salt))
}

/// Feeds the events in turn and hands back the state and the last effect.
fn after(base: &str, salt: &str, events: Vec<Event>) -> (Registration, Effect) {
    let mut state = start(base, salt);
    let mut last = Effect::Begin;
    for event in events {
        let (next, effect) = action(state, event);
        state = next;
        last = effect;
    }
    (state, last)
}

fn written() -> Vec<Event> {
    vec![
        Event::Started,
        Event::Lookup(false),
        Event::Lookup(false),
        Event::Done,
        Event::Done,
        Event::Done,
    ]
}

#[test]
fn uniqueness_rule_judges_username_first() {
    assert!(matches!(check_existing_user(false, false), Ok(())));
    assert!(matches!(check_existing_user(true, false), Err(UserCreationError::DuplicateUsername)));
    assert!(matches!(check_existing_user(false, true), Err(UserCreationError::DuplicateEmail)));
    assert!(matches!(check_existing_user(true, true), Err(UserCreationError::DuplicateUsername)));
}

#[test]
fn account_record_carries_the_username() {
    let record = create_user_record(&alice(), ACCOUNT);
    assert_eq!(record.id, ACCOUNT);
    assert_eq!(record.username, "alice");
}

#[test]
fn email_record_is_inactive_and_bound() {
    let record = create_email_record(&alice(), ACCOUNT, EMAIL, TOKEN);
    assert_eq!(record.id, EMAIL);
    assert_eq!(record.key, "alice@example.com");
    assert!(!record.active);
    assert_eq!(record.activation_token, TOKEN);
    assert_eq!(record.user_id, ACCOUNT);
}

#[test]
fn password_record_holds_hash_and_salt() {
    let record = create_password_record(&alice(), ACCOUNT, PASSWORD, &String::from(SALT)).unwrap();
    assert_eq!(record.id, PASSWORD);
    assert_eq!(record.user_id, ACCOUNT);
    assert_eq!(record.salt, SALT);
    assert_eq!(Ok(record.hash.clone()), derive_hash("secret1", SALT));
    assert_ne!(record.hash, "secret1");
}

#[test]
fn password_record_fails_on_a_bad_salt() {
    let r = create_password_record(&alice(), ACCOUNT, PASSWORD, &String::from("abc"));
    assert!(matches!(r, Err(UserCreationError::PasswordHashingError(_))));
}

#[test]
fn password_record_from_an_outcome() {
    let ok = password_record_from(ACCOUNT, PASSWORD, String::from("s"), Ok(String::from("h")))
        .unwrap();
    assert_eq!((ok.id, ok.user_id), (PASSWORD, ACCOUNT));
    assert_eq!(ok.hash, "h");
    assert_eq!(ok.salt, "s");
    match password_record_from(ACCOUNT, PASSWORD, String::from("s"), Err(String::from("boom"))) {
        Err(UserCreationError::PasswordHashingError(message)) => assert_eq!(message, "boom"),
        _ => panic!("expected PasswordHashingError"),
    }
}

#[test]
fn begin_draws_supplies() {
    let state = Registration::begin(alice(), String::from(BASE));
    assert_eq!(state.stage, Stage::Start);
    assert!(state.failure.is_none());
    assert_eq!(state.user.username, "alice");
    assert_eq!(state.base_url, BASE);
    assert_eq!(state.supplies.salt.len(), 22);
    let other = Supplies::draw();
    assert_ne!(state.supplies.account_id, other.account_id);
    assert_ne!(state.supplies.token, state.supplies.account_id);
    assert_ne!(state.supplies.salt, other.salt);
}

#[test]
fn first_step_looks_for_the_username() {
    let (state, effect) = after(BASE, SALT, vec![Event::Started]);
    assert_eq!(state.stage, Stage::CheckingUsername);
    match effect {
        Effect::FindUser(name) => assert_eq!(name, "alice"),
        _ => panic!("expected FindUser"),
    }
}

#[test]
fn used_username_finishes_without_a_transaction() {
    let (state, effect) = after(BASE, SALT, vec![Event::Started, Event::Lookup(true)]);
    assert_eq!(state.stage, Stage::Finished);
    assert!(matches!(effect, Effect::Finish(Err(UserCreationError::DuplicateUsername))));
}

#[test]
fn unused_username_looks_for_the_email() {
    let (state, effect) = after(BASE, SALT, vec![Event::Started, Event::Lookup(false)]);
    assert_eq!(state.stage, Stage::CheckingEmail);
    match effect {
        Effect::FindEmail(key) => assert_eq!(key, "alice@example.com"),
        _ => panic!("expected FindEmail"),
    }
}

#[test]
fn used_email_finishes_without_a_transaction() {
    let events = vec![Event::Started, Event::Lookup(false), Event::Lookup(true)];
    let (state, effect) = after(BASE, SALT, events);
    assert_eq!(state.stage, Stage::Finished);
    assert!(matches!(effect, Effect::Finish(Err(UserCreationError::DuplicateEmail))));
}

#[test]
fn failed_lookup_is_a_database_error() {
    let fault = Event::Failed(Fault::Other(String::from("connection reset")));
    let (state, effect) = after(BASE, SALT, vec![Event::Started, fault]);
    assert_eq!(state.stage, Stage::Finished);
    match effect {
        Effect::Finish(Err(UserCreationError::DatabaseError(message))) => {
            assert_eq!(message, "connection reset")
        }
        _ => panic!("expected DatabaseError"),
    }
}

#[test]
fn passed_check_asks_for_a_transaction() {
    let events = vec![Event::Started, Event::Lookup(false), Event::Lookup(false)];
    let (state, effect) = after(BASE, SALT, events);
    assert_eq!(state.stage, Stage::Opening);
    assert!(matches!(effect, Effect::Begin));
}

#[test]
fn refused_transaction_finishes_with_a_database_error() {
    let events = vec![
        Event::Started,
        Event::Lookup(false),
        Event::Lookup(false),
        Event::Failed(Fault::Other(String::from("pool exhausted"))),
    ];
    let (state, effect) = after(BASE, SALT, events);
    assert_eq!(state.stage, Stage::Finished);
    match effect {
        Effect::Finish(Err(UserCreationError::DatabaseError(message))) => {
            assert_eq!(message, "pool exhausted")
        }
        _ => panic!("expected DatabaseError"),
    }
}

#[test]
fn writes_follow_one_another() {
    let mut events = vec![Event::Started, Event::Lookup(false), Event::Lookup(false), Event::Done];
    let (state, effect) = after(BASE, SALT, events);
    assert_eq!(state.stage, Stage::WritingAccount);
    match effect {
        Effect::InsertUser(record) => {
            assert_eq!(record.id, ACCOUNT);
            assert_eq!(record.username, "alice");
        }
        _ => panic!("expected InsertUser"),
    }

    events = vec![
        Event::Started,
        Event::Lookup(false),
        Event::Lookup(false),
        Event::Done,
        Event::Done,
    ];
    let (state, effect) = after(BASE, SALT, events);
    assert_eq!(state.stage, Stage::WritingEmail);
    match effect {
        Effect::InsertEmail(record) => {
            assert_eq!(record.id, EMAIL);
            assert_eq!(record.key, "alice@example.com");
            assert!(!record.active);
            assert_eq!(record.activation_token, TOKEN);
            assert_eq!(record.user_id, ACCOUNT);
        }
        _ => panic!("expected InsertEmail"),
    }

    let (state, effect) = after(BASE, SALT, written());
    assert_eq!(state.stage, Stage::WritingPassword);
    match effect {
        Effect::InsertPassword(record) => {
            assert_eq!(record.id, PASSWORD);
            assert_eq!(record.user_id, ACCOUNT);
            assert_eq!(record.salt, SALT);
            assert_eq!(Ok(record.hash), derive_hash("secret1", SALT));
        }
        _ => panic!("expected InsertPassword"),
    }
}

#[test]
fn email_follows_the_writes_and_commit_follows_the_email() {
    let mut events = written();
    events.push(Event::Done);
    let (state, effect) = after(BASE, SALT, events);
    assert_eq!(state.stage, Stage::Dispatching);
    match effect {
        Effect::SendEmail(mail) => {
            assert_eq!(mail.to, "alice@example.com");
            assert_eq!(mail.subject, "Welcome to the Meisaku!");
            assert_eq!(mail.template, "sign_up");
            assert_eq!(mail.user_name, "alice");
            assert_eq!(
                mail.activation_url,
                "https://app.example.com/user/activate?token=00000000-0000-4000-8000-000000000003&user_id=00000000-0000-4000-8000-000000000001"
            );
        }
        _ => panic!("expected SendEmail"),
    }

    let mut events = written();
    events.push(Event::Done);
    events.push(Event::Done);
    let (state, effect) = after(BASE, SALT, events);
    assert_eq!(state.stage, Stage::Committing);
    assert!(matches!(effect, Effect::Commit));
}

#[test]
fn commit_finishes_with_the_summary() {
    let mut events = written();
    events.push(Event::Done);
    events.push(Event::Done);
    events.push(Event::Done);
    let (state, effect) = after(BASE, SALT, events);
    assert_eq!(state.stage, Stage::Finished);
    match effect {
        Effect::Finish(Ok(summary)) => {
            assert_eq!(summary.id, ACCOUNT);
            assert_eq!(summary.email_id, EMAIL);
            assert_eq!(summary.password_id, PASSWORD);
            assert_eq!(summary.username, "alice");
            assert_eq!(summary.email, "alice@example.com");
            let dto = summary.into_dto();
            assert_eq!(dto.id, ACCOUNT);
            assert_eq!(dto.username, "alice");
            assert_eq!(dto.email, "alice@example.com");
        }
        _ => panic!("expected the summary"),
    }
}

#[test]
fn failed_commit_is_a_database_error() {
    let mut events = written();
    events.push(Event::Done);
    events.push(Event::Done);
    events.push(Event::Failed(Fault::Other(String::from("serialization failure"))));
    let (state, effect) = after(BASE, SALT, events);
    assert_eq!(state.stage, Stage::Finished);
    match effect {
        Effect::Finish(Err(UserCreationError::DatabaseError(message))) => {
            assert_eq!(message, "serialization failure")
        }
        _ => panic!("expected DatabaseError"),
    }
}

#[test]
fn violated_username_index_rolls_back_as_duplicate_username() {
    let events = vec![
        Event::Started,
        Event::Lookup(false),
        Event::Lookup(false),
        Event::Done,
        Event::Failed(Fault::UniqueViolation(UniqueIndex::Username, String::from("taken"))),
    ];
    let (state, effect) = after(BASE, SALT, events);
    assert_eq!(state.stage, Stage::Aborting);
    assert!(matches!(effect, Effect::Rollback));
    let (state, effect) = action(state, Event::Done);
    assert_eq!(state.stage, Stage::Finished);
    assert!(matches!(effect, Effect::Finish(Err(UserCreationError::DuplicateUsername))));
}

#[test]
fn violated_email_index_rolls_back_as_duplicate_email() {
    let events = vec![
        Event::Started,
        Event::Lookup(false),
        Event::Lookup(false),
        Event::Done,
        Event::Done,
        Event::Failed(Fault::UniqueViolation(UniqueIndex::Email, String::from("taken"))),
    ];
    let (state, effect) = after(BASE, SALT, events);
    assert_eq!(state.stage, Stage::Aborting);
    assert!(matches!(effect, Effect::Rollback));
    let (_, effect) = action(state, Event::Done);
    assert!(matches!(effect, Effect::Finish(Err(UserCreationError::DuplicateEmail))));
}

#[test]
fn other_write_fault_rolls_back_as_database_error() {
    let events = vec![
        Event::Started,
        Event::Lookup(false),
        Event::Lookup(false),
        Event::Done,
        Event::Failed(Fault::Other(String::from("disk full"))),
    ];
    let (state, effect) = after(BASE, SALT, events);
    assert!(matches!(effect, Effect::Rollback));
    let (_, effect) = action(state, Event::Done);
    match effect {
        Effect::Finish(Err(UserCreationError::DatabaseError(message))) => {
            assert_eq!(message, "disk full")
        }
        _ => panic!("expected DatabaseError"),
    }
}

#[test]
fn failed_derivation_rolls_back_as_password_hashing_error() {
    let (state, effect) = after(BASE, "abc", written());
    assert_eq!(state.stage, Stage::Aborting);
    assert!(matches!(effect, Effect::Rollback));
    let expected = derive_hash("secret1", "abc").unwrap_err();
    let (_, effect) = action(state, Event::Done);
    match effect {
        Effect::Finish(Err(UserCreationError::PasswordHashingError(message))) => {
            assert_eq!(message, expected)
        }
        _ => panic!("expected PasswordHashingError"),
    }
}

#[test]
fn relative_activation_url_rolls_back_as_send_email_error() {
    let mut events = written();
    events.push(Event::Done);
    let (state, effect) = after("", SALT, events);
    assert_eq!(state.stage, Stage::Aborting);
    assert!(matches!(effect, Effect::Rollback));
    let (_, effect) = action(state, Event::Done);
    assert!(matches!(effect, Effect::Finish(Err(UserCreationError::SendEmailError(_)))));
}

#[test]
fn failed_dispatch_rolls_back_as_send_email_error() {
    let mut events = written();
    events.push(Event::Done);
    events.push(Event::Failed(Fault::Other(String::from("smtp timeout"))));
    let (state, effect) = after(BASE, SALT, events);
    assert_eq!(state.stage, Stage::Aborting);
    assert!(matches!(effect, Effect::Rollback));
    let (state, effect) = action(state, Event::Failed(Fault::Other(String::from("gone"))));
    assert_eq!(state.stage, Stage::Finished);
    match effect {
        Effect::Finish(Err(UserCreationError::SendEmailError(message))) => {
            assert_eq!(message, "smtp timeout")
        }
        _ => panic!("expected SendEmailError"),
    }
}

#[test]
fn finished_registration_answers_with_a_database_error() {
    let (state, _) = after(BASE, SALT, vec![Event::Started, Event::Lookup(true)]);
    let (state, effect) = action(state, Event::Done);
    assert_eq!(state.stage, Stage::Finished);
    match effect {
        Effect::Finish(Err(UserCreationError::DatabaseError(message))) => {
            assert_eq!(message, "unexpected event")
        }
        _ => panic!("expected DatabaseError"),
    }
}

#[test]
fn unexpected_answer_is_a_database_error() {
    let (_, effect) = after(BASE, SALT, vec![Event::Started, Event::Done]);
    match effect {
        Effect::Finish(Err(UserCreationError::DatabaseError(message))) => {
            assert_eq!(message, "unexpected event")
        }
        _ => panic!("expected DatabaseError"),
    }
}

fn nothing() -> Result<String, String> {
    Err(String::new())
}

#[test]
fn advance_reads_the_hash_when_the_email_row_is_written() {
    let events = vec![
        Event::Started,
        Event::Lookup(false),
        Event::Lookup(false),
        Event::Done,
        Event::Done,
    ];
    let (state, _) = after(BASE, SALT, events);
    assert_eq!(state.stage, Stage::WritingEmail);
    let (state, effect) = advance(state, Event::Done, Ok(String::from("$hash")), nothing());
    assert_eq!(state.stage, Stage::WritingPassword);
    match effect {
        Effect::InsertPassword(record) => {
            assert_eq!(record.id, PASSWORD);
            assert_eq!(record.user_id, ACCOUNT);
            assert_eq!(record.hash, "$hash");
            assert_eq!(record.salt, SALT);
            assert_eq!(record.reset_token, None);
        }
        _ => panic!("expected InsertPassword"),
    }
}

#[test]
fn advance_turns_a_failed_derivation_into_a_rollback() {
    let events = vec![
        Event::Started,
        Event::Lookup(false),
        Event::Lookup(false),
        Event::Done,
        Event::Done,
    ];
    let (state, _) = after(BASE, SALT, events);
    let (state, effect) = advance(state, Event::Done, Err(String::from("boom")), nothing());
    assert_eq!(state.stage, Stage::Aborting);
    assert!(matches!(effect, Effect::Rollback));
    let (_, effect) = advance(state, Event::Done, nothing(), nothing());
    match effect {
        Effect::Finish(Err(UserCreationError::PasswordHashingError(message))) => {
            assert_eq!(message, "boom")
        }
        _ => panic!("expected PasswordHashingError"),
    }
}

#[test]
fn advance_reads_the_link_when_the_credential_row_is_written() {
    let (state, _) = after(BASE, SALT, written());
    assert_eq!(state.stage, Stage::WritingPassword);
    let (state, effect) =
        advance(state, Event::Done, nothing(), Ok(String::from("https://checked.example/x")));
    assert_eq!(state.stage, Stage::Dispatching);
    match effect {
        Effect::SendEmail(mail) => {
            assert_eq!(mail.to, "alice@example.com");
            assert_eq!(mail.user_name, "alice");
            assert_eq!(mail.activation_url, "https://checked.example/x");
        }
        _ => panic!("expected SendEmail"),
    }
}

#[test]
fn advance_turns_a_refused_link_into_a_rollback() {
    let (state, _) = after(BASE, SALT, written());
    let (state, effect) = advance(state, Event::Done, nothing(), Err(String::from("no scheme")));
    assert_eq!(state.stage, Stage::Aborting);
    assert!(matches!(effect, Effect::Rollback));
    let (_, effect) = advance(state, Event::Done, nothing(), nothing());
    match effect {
        Effect::Finish(Err(UserCreationError::SendEmailError(message))) => {
            assert_eq!(message, "no scheme")
        }
        _ => panic!("expected SendEmailError"),
    }
}

#[test]
fn advance_reads_no_outcome_at_other_steps() {
    let state = start(BASE, SALT);
    let (state, effect) =
        advance(state, Event::Started, Ok(String::from("h")), Ok(String::from("u")));
    assert_eq!(state.stage, Stage::CheckingUsername);
    assert!(matches!(effect, Effect::FindUser(_)));
    let (state, effect) = advance(state, Event::Lookup(false), nothing(), nothing());
    assert_eq!(state.stage, Stage::CheckingEmail);
    assert!(matches!(effect, Effect::FindEmail(_)));
}

#[test]
fn raw_url_carries_token_and_account() {
    let state = start(BASE, SALT);
    assert_eq!(
        state.raw_url(),
        "https://app.example.com/user/activate?token=00000000-0000-4000-8000-000000000003&user_id=00000000-0000-4000-8000-000000000001"
    );
}

#[test]
fn violated_primary_key_rolls_back_as_database_error() {
    let events = vec![
        Event::Started,
        Event::Lookup(false),
        Event::Lookup(false),
        Event::Done,
        Event::Failed(Fault::UniqueViolation(UniqueIndex::PrimaryKey, String::from("user_pkey"))),
    ];
    let (state, effect) = after(BASE, SALT, events);
    assert_eq!(state.stage, Stage::Aborting);
    assert!(matches!(effect, Effect::Rollback));
    let (_, effect) = action(state, Event::Done);
    match effect {
        Effect::Finish(Err(UserCreationError::DatabaseError(message))) => {
            assert_eq!(message, "user_pkey")
        }
        _ => panic!("expected DatabaseError"),
    }
}

#[test]
fn violated_primary_key_of_the_credential_is_a_database_error() {
    let mut events = written();
    events.push(Event::Failed(Fault::UniqueViolation(
        UniqueIndex::PrimaryKey,
        String::from("user_password_pkey"),
    )));
    let (state, effect) = after(BASE, SALT, events);
    assert!(matches!(effect, Effect::Rollback));
    let (_, effect) = action(state, Event::Done);
    assert!(matches!(effect, Effect::Finish(Err(UserCreationError::DatabaseError(_)))));
}
