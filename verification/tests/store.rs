use user_registration::records::{AccountRecord, EmailRecord, PasswordRecord};
use user_registration::credential::Credential;
use user_registration::store::{Fault, Store, UniqueIndex};

fn account(id: u128, name: &str) -> AccountRecord {
    AccountRecord::new(id, String::from(name))
}

fn email(id: u128, key: &str, user_id: u128) -> EmailRecord {
    EmailRecord::new(id, String::from(key), 7, user_id)
}

fn password(id: u128, user_id: u128) -> PasswordRecord {
    PasswordRecord::new(id, user_id, Credential { hash: String::from("h"), salt: String::from("s") })
}

#[test]
fn new_store_is_empty() {
    let store = Store::new();
    assert!(store.accounts().is_empty());
    assert!(store.emails().is_empty());
    assert!(store.passwords().is_empty());
    assert!(!store.in_transaction());
    assert!(!store.has_username(&String::from("alice")));
    assert!(!store.has_email(&String::from("alice@example.com")));
}

#[test]
fn insert_needs_a_transaction() {
    let mut store = Store::new();
    match store.insert_account(account(1, "alice")) {
        Err(Fault::Other(message)) => assert_eq!(message, "no transaction is open"),
        _ => panic!("expected a refusal"),
    }
    assert!(matches!(store.insert_email(email(2, "a@x.com", 1)), Err(Fault::Other(_))));
    assert!(matches!(store.insert_password(password(3, 1)), Err(Fault::Other(_))));
    assert!(matches!(store.commit(), Err(Fault::Other(_))));
    assert!(store.accounts().is_empty());
}

#[test]
fn one_transaction_at_a_time() {
    let mut store = Store::new();
    assert!(store.begin().is_ok());
    assert!(store.in_transaction());
    match store.begin() {
        Err(Fault::Other(message)) => assert_eq!(message, "a transaction is already open"),
        _ => panic!("expected a refusal"),
    }
    assert!(store.in_transaction());
}

#[test]
fn pending_rows_are_invisible_until_commit() {
    let mut store = Store::new();
    store.begin().unwrap();
    store.insert_account(account(1, "alice")).unwrap();
    store.insert_email(email(2, "alice@example.com", 1)).unwrap();
    store.insert_password(password(3, 1)).unwrap();
    assert!(store.accounts().is_empty());
    assert!(!store.has_username(&String::from("alice")));
    assert!(!store.has_email(&String::from("alice@example.com")));
    store.commit().unwrap();
    assert!(!store.in_transaction());
    assert_eq!(store.accounts().len(), 1);
    assert_eq!(store.emails().len(), 1);
    assert_eq!(store.passwords().len(), 1);
    assert_eq!(store.accounts()[0].username, "alice");
    assert_eq!(store.emails()[0].key, "alice@example.com");
    assert_eq!(store.passwords()[0].user_id, 1);
    assert!(store.has_username(&String::from("alice")));
    assert!(store.has_email(&String::from("alice@example.com")));
}

#[test]
fn rollback_drops_pending_rows() {
    let mut store = Store::new();
    store.begin().unwrap();
    store.insert_account(account(1, "alice")).unwrap();
    store.rollback();
    assert!(!store.in_transaction());
    assert!(store.accounts().is_empty());
    store.begin().unwrap();
    store.commit().unwrap();
    assert!(store.accounts().is_empty());
    store.rollback();
    assert!(!store.in_transaction());
}

#[test]
fn username_index_refuses_committed_and_pending_names() {
    let mut store = Store::new();
    store.begin().unwrap();
    store.insert_account(account(1, "alice")).unwrap();
    match store.insert_account(account(2, "alice")) {
        Err(Fault::UniqueViolation(UniqueIndex::Username, message)) => {
            assert_eq!(message, "unique index on username")
        }
        _ => panic!("expected a violation"),
    }
    store.insert_account(account(3, "bob")).unwrap();
    store.commit().unwrap();
    assert_eq!(store.accounts().len(), 2);
    store.begin().unwrap();
    assert!(matches!(
        store.insert_account(account(4, "bob")),
        Err(Fault::UniqueViolation(UniqueIndex::Username, _))
    ));
    store.insert_account(account(5, "Bob")).unwrap();
    store.commit().unwrap();
    assert_eq!(store.accounts().len(), 3);
    assert_eq!(store.accounts()[2].id, 5);
}

#[test]
fn email_index_refuses_committed_and_pending_addresses() {
    let mut store = Store::new();
    store.begin().unwrap();
    store.insert_email(email(1, "a@x.com", 9)).unwrap();
    match store.insert_email(email(2, "a@x.com", 8)) {
        Err(Fault::UniqueViolation(UniqueIndex::Email, message)) => {
            assert_eq!(message, "unique index on email")
        }
        _ => panic!("expected a violation"),
    }
    store.commit().unwrap();
    store.begin().unwrap();
    assert!(matches!(
        store.insert_email(email(3, "a@x.com", 7)),
        Err(Fault::UniqueViolation(UniqueIndex::Email, _))
    ));
    store.insert_email(email(4, "b@x.com", 9)).unwrap();
    store.commit().unwrap();
    assert_eq!(store.emails().len(), 2);
    assert!(!store.emails()[1].active);
}

#[test]
fn fault_message_is_handed_out() {
    assert_eq!(Fault::Other(String::from("a")).into_message(), "a");
    assert_eq!(
        Fault::UniqueViolation(UniqueIndex::Email, String::from("b")).into_message(),
        "b"
    );
}

#[test]
fn primary_keys_refuse_committed_and_pending_identifiers() {
    let mut store = Store::new();
    store.begin().unwrap();
    store.insert_account(account(1, "alice")).unwrap();
    match store.insert_account(account(1, "bob")) {
        Err(Fault::UniqueViolation(UniqueIndex::PrimaryKey, message)) => {
            assert_eq!(message, "primary key")
        }
        _ => panic!("expected a violation"),
    }
    store.insert_email(email(1, "a@x.com", 1)).unwrap();
    assert!(matches!(
        store.insert_email(email(1, "b@x.com", 1)),
        Err(Fault::UniqueViolation(UniqueIndex::PrimaryKey, _))
    ));
    store.insert_password(password(1, 1)).unwrap();
    assert!(matches!(
        store.insert_password(password(1, 1)),
        Err(Fault::UniqueViolation(UniqueIndex::PrimaryKey, _))
    ));
    store.commit().unwrap();
    store.begin().unwrap();
    assert!(matches!(
        store.insert_account(account(1, "carol")),
        Err(Fault::UniqueViolation(UniqueIndex::PrimaryKey, _))
    ));
    assert!(matches!(
        store.insert_password(password(1, 2)),
        Err(Fault::UniqueViolation(UniqueIndex::PrimaryKey, _))
    ));
    store.insert_password(password(2, 1)).unwrap();
    store.commit().unwrap();
    assert_eq!(store.accounts().len(), 1);
    assert_eq!(store.emails().len(), 1);
    assert_eq!(store.passwords().len(), 2);
}

#[test]
fn username_index_is_judged_before_the_primary_key() {
    let mut store = Store::new();
    store.begin().unwrap();
    store.insert_account(account(1, "alice")).unwrap();
    assert!(matches!(
        store.insert_account(account(1, "alice")),
        Err(Fault::UniqueViolation(UniqueIndex::Username, _))
    ));
}

#[test]
fn violated_constraints_are_known_by_name() {
    let known = vec![
        ("user_username_key", Some(UniqueIndex::Username)),
        ("user_email_key_key", Some(UniqueIndex::Email)),
        ("user_pkey", Some(UniqueIndex::PrimaryKey)),
        ("user_email_pkey", Some(UniqueIndex::PrimaryKey)),
        ("user_password_pkey", Some(UniqueIndex::PrimaryKey)),
        ("user_email_user_id_fkey", None),
        ("", None),
    ];
    for (name, expected) in known {
        let fault = Fault::from_violation(Some(String::from(name)), String::from("m"));
        match (fault, expected) {
            (Fault::UniqueViolation(index, message), Some(wanted)) => {
                assert_eq!(index, wanted);
                assert_eq!(message, "m");
            }
            (Fault::Other(message), None) => assert_eq!(message, "m"),
            _ => panic!("wrong fault for {}", name),
        }
    }
    assert!(matches!(Fault::from_violation(None, String::from("m")), Fault::Other(_)));
}
