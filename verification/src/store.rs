//! An executable model of the storage boundary: three tables, each with a
//! primary key, unique indexes on username and email, and one transaction at
//! a time. Rows written inside a transaction are seen by no reader until the
//! transaction commits.

use vstd::prelude::*;
use vstd::string::*;
use crate::records::{AccountRecord, AccountRow, EmailRecord, EmailRow, PasswordRecord, PasswordRow};

verus! {

/// A unique index of the store.
#[derive(Clone, Copy, Debug, PartialEq, Eq, Structural)]
pub enum UniqueIndex {
    /// On the username of accounts.
    Username,
    /// On the address of email identities.
    Email,
    /// On the identifier of a table's rows.
    PrimaryKey,
}

/// Why the store refused an operation.
#[derive(Debug)]
pub enum Fault {
    /// The index already holds the value.
    UniqueViolation(UniqueIndex, String),
    /// Anything else.
    Other(String),
}

pub enum FaultView {
    UniqueViolation(UniqueIndex, Seq<char>),
    Other(Seq<char>),
}

impl View for Fault {
    type V = FaultView;

    open spec fn view(&self) -> FaultView {
        match self {
            Fault::UniqueViolation(index, m) => FaultView::UniqueViolation(*index, m@),
            Fault::Other(m) => FaultView::Other(m@),
        }
    }
}

impl FaultView {
    pub open spec fn message(self) -> Seq<char> {
        match self {
            FaultView::UniqueViolation(_, m) => m,
            FaultView::Other(m) => m,
        }
    }
}

impl Fault {
    /// The fault's message.
    pub fn into_message(self) -> (message: String)
        ensures
            message@ == self@.message(),
    {
        match self {
            Fault::UniqueViolation(_, m) => m,
            Fault::Other(m) => m,
        }
    }

    /// The fault that a violated constraint is. The constraints are known
    /// by the names that the database gives them: `user_username_key` and
    /// `user_email_key_key` for the two unique indexes, and the table's name
    /// with `_pkey` for a primary key. A violation of any other constraint,
    /// or of none that the database names, is no unique violation here.
    pub fn from_violation(constraint: Option<String>, message: String) -> (fault: Fault)
        ensures
            fault@ == violation(
                match constraint {
                    Some(name) => Some(name@),
                    None => None,
                },
                message@,
            ),
    {
        match constraint {
            None => Fault::Other(message),
            Some(name) => {
                if name == String::from_str("user_username_key") {
                    Fault::UniqueViolation(UniqueIndex::Username, message)
                } else if name == String::from_str("user_email_key_key") {
                    Fault::UniqueViolation(UniqueIndex::Email, message)
                } else if name == String::from_str("user_pkey") || name == String::from_str(
                    "user_email_pkey",
                ) || name == String::from_str("user_password_pkey") {
                    Fault::UniqueViolation(UniqueIndex::PrimaryKey, message)
                } else {
                    Fault::Other(message)
                }
            },
        }
    }
}

/// The index that a constraint's name stands for.
pub open spec fn index_named(name: Seq<char>) -> Option<UniqueIndex> {
    if name == "user_username_key"@ {
        Some(UniqueIndex::Username)
    } else if name == "user_email_key_key"@ {
        Some(UniqueIndex::Email)
    } else if name == "user_pkey"@ || name == "user_email_pkey"@ || name == "user_password_pkey"@ {
        Some(UniqueIndex::PrimaryKey)
    } else {
        None
    }
}

/// The fault that a violated constraint with this message is.
pub open spec fn violation(constraint: Option<Seq<char>>, message: Seq<char>) -> FaultView {
    match constraint {
        None => FaultView::Other(message),
        Some(name) => match index_named(name) {
            Some(index) => FaultView::UniqueViolation(index, message),
            None => FaultView::Other(message),
        },
    }
}

/// The view of an operation's result.
pub open spec fn done_view(r: Result<(), Fault>) -> Result<(), FaultView> {
    match r {
        Ok(()) => Ok(()),
        Err(fault) => Err(fault@),
    }
}

pub open spec fn username_taken() -> Seq<char> {
    "unique index on username"@
}

pub open spec fn email_taken() -> Seq<char> {
    "unique index on email"@
}

pub open spec fn id_taken() -> Seq<char> {
    "primary key"@
}

pub open spec fn not_open() -> Seq<char> {
    "no transaction is open"@
}

pub open spec fn already_open() -> Seq<char> {
    "a transaction is already open"@
}

/// The usernames of account rows, in the rows' order.
pub open spec fn names(rows: Seq<AccountRow>) -> Seq<Seq<char>> {
    rows.map_values(|row: AccountRow| row.username)
}

/// The addresses of email rows, in the rows' order.
pub open spec fn keys(rows: Seq<EmailRow>) -> Seq<Seq<char>> {
    rows.map_values(|row: EmailRow| row.key)
}

/// The identifiers of account rows, in the rows' order.
pub open spec fn account_ids(rows: Seq<AccountRow>) -> Seq<u128> {
    rows.map_values(|row: AccountRow| row.id)
}

/// The identifiers of email rows, in the rows' order.
pub open spec fn email_ids(rows: Seq<EmailRow>) -> Seq<u128> {
    rows.map_values(|row: EmailRow| row.id)
}

/// The identifiers of credential rows, in the rows' order.
pub open spec fn password_ids(rows: Seq<PasswordRow>) -> Seq<u128> {
    rows.map_values(|row: PasswordRow| row.id)
}

/// The rows of the three tables.
pub struct Tables {
    pub accounts: Seq<AccountRow>,
    pub emails: Seq<EmailRow>,
    pub passwords: Seq<PasswordRow>,
}

impl Tables {
    pub open spec fn empty() -> Tables {
        Tables { accounts: Seq::empty(), emails: Seq::empty(), passwords: Seq::empty() }
    }

    /// Whether an account row has this username.
    pub open spec fn has_username(self, name: Seq<char>) -> bool {
        names(self.accounts).contains(name)
    }

    /// Whether an email row has this address.
    pub open spec fn has_email(self, key: Seq<char>) -> bool {
        keys(self.emails).contains(key)
    }

    /// Whether an account row has this identifier.
    pub open spec fn has_account_id(self, id: u128) -> bool {
        account_ids(self.accounts).contains(id)
    }

    /// Whether an email row has this identifier.
    pub open spec fn has_email_id(self, id: u128) -> bool {
        email_ids(self.emails).contains(id)
    }

    /// Whether a credential row has this identifier.
    pub open spec fn has_password_id(self, id: u128) -> bool {
        password_ids(self.passwords).contains(id)
    }

    /// These rows followed by those of `more`.
    pub open spec fn plus(self, more: Tables) -> Tables {
        Tables {
            accounts: self.accounts + more.accounts,
            emails: self.emails + more.emails,
            passwords: self.passwords + more.passwords,
        }
    }

    /// No username, no email address and, in each table, no identifier
    /// occurs twice.
    pub open spec fn unique(self) -> bool {
        &&& names(self.accounts).no_duplicates()
        &&& keys(self.emails).no_duplicates()
        &&& account_ids(self.accounts).no_duplicates()
        &&& email_ids(self.emails).no_duplicates()
        &&& password_ids(self.passwords).no_duplicates()
    }
}

/// The store as its contracts see it: what every reader sees, and what the
/// open transaction, if there is one, has written so far.
pub struct StoreView {
    pub committed: Tables,
    pub pending: Option<Tables>,
}

impl StoreView {
    /// Whether a row with this username is committed or pending.
    pub open spec fn claims_username(self, name: Seq<char>) -> bool {
        self.committed.has_username(name) || (self.pending is Some
            && self.pending.unwrap().has_username(name))
    }

    /// Whether a row with this address is committed or pending.
    pub open spec fn claims_email(self, key: Seq<char>) -> bool {
        self.committed.has_email(key) || (self.pending is Some && self.pending.unwrap().has_email(
            key,
        ))
    }

    /// Whether an account row with this identifier is committed or pending.
    pub open spec fn claims_account_id(self, id: u128) -> bool {
        self.committed.has_account_id(id) || (self.pending is Some
            && self.pending.unwrap().has_account_id(id))
    }

    /// Whether an email row with this identifier is committed or pending.
    pub open spec fn claims_email_id(self, id: u128) -> bool {
        self.committed.has_email_id(id) || (self.pending is Some
            && self.pending.unwrap().has_email_id(id))
    }

    /// Whether a credential row with this identifier is committed or
    /// pending.
    pub open spec fn claims_password_id(self, id: u128) -> bool {
        self.committed.has_password_id(id) || (self.pending is Some
            && self.pending.unwrap().has_password_id(id))
    }

    /// The unique indexes hold over committed and pending rows together.
    pub open spec fn well_formed(self) -> bool {
        match self.pending {
            None => self.committed.unique(),
            Some(staged) => self.committed.plus(staged).unique(),
        }
    }

    pub open spec fn begin(self) -> (StoreView, Result<(), FaultView>) {
        if self.pending is Some {
            (self, Err(FaultView::Other(already_open())))
        } else {
            (StoreView { committed: self.committed, pending: Some(Tables::empty()) }, Ok(()))
        }
    }

    pub open spec fn insert_account(self, row: AccountRow) -> (StoreView, Result<(), FaultView>) {
        match self.pending {
            None => (self, Err(FaultView::Other(not_open()))),
            Some(staged) => if self.claims_username(row.username) {
                (self, Err(FaultView::UniqueViolation(UniqueIndex::Username, username_taken())))
            } else if self.claims_account_id(row.id) {
                (self, Err(FaultView::UniqueViolation(UniqueIndex::PrimaryKey, id_taken())))
            } else {
                (
                    StoreView {
                        committed: self.committed,
                        pending: Some(
                            Tables {
                                accounts: staged.accounts.push(row),
                                emails: staged.emails,
                                passwords: staged.passwords,
                            },
                        ),
                    },
                    Ok(()),
                )
            },
        }
    }

    pub open spec fn insert_email(self, row: EmailRow) -> (StoreView, Result<(), FaultView>) {
        match self.pending {
            None => (self, Err(FaultView::Other(not_open()))),
            Some(staged) => if self.claims_email(row.key) {
                (self, Err(FaultView::UniqueViolation(UniqueIndex::Email, email_taken())))
            } else if self.claims_email_id(row.id) {
                (self, Err(FaultView::UniqueViolation(UniqueIndex::PrimaryKey, id_taken())))
            } else {
                (
                    StoreView {
                        committed: self.committed,
                        pending: Some(
                            Tables {
                                accounts: staged.accounts,
                                emails: staged.emails.push(row),
                                passwords: staged.passwords,
                            },
                        ),
                    },
                    Ok(()),
                )
            },
        }
    }

    pub open spec fn insert_password(self, row: PasswordRow) -> (StoreView, Result<(), FaultView>) {
        match self.pending {
            None => (self, Err(FaultView::Other(not_open()))),
            Some(staged) => if self.claims_password_id(row.id) {
                (self, Err(FaultView::UniqueViolation(UniqueIndex::PrimaryKey, id_taken())))
            } else {
                (
                    StoreView {
                        committed: self.committed,
                        pending: Some(
                            Tables {
                                accounts: staged.accounts,
                                emails: staged.emails,
                                passwords: staged.passwords.push(row),
                            },
                        ),
                    },
                    Ok(()),
                )
            },
        }
    }

    pub open spec fn commit(self) -> (StoreView, Result<(), FaultView>) {
        match self.pending {
            None => (self, Err(FaultView::Other(not_open()))),
            Some(staged) => (
                StoreView { committed: self.committed.plus(staged), pending: None },
                Ok(()),
            ),
        }
    }

    pub open spec fn rollback(self) -> StoreView {
        StoreView { committed: self.committed, pending: None }
    }
}

pub open spec fn account_rows(records: Seq<AccountRecord>) -> Seq<AccountRow> {
    records.map_values(|r: AccountRecord| r@)
}

pub open spec fn email_rows(records: Seq<EmailRecord>) -> Seq<EmailRow> {
    records.map_values(|r: EmailRecord| r@)
}

pub open spec fn password_rows(records: Seq<PasswordRecord>) -> Seq<PasswordRow> {
    records.map_values(|r: PasswordRecord| r@)
}

/// The store.
pub struct Store {
    accounts: Vec<AccountRecord>,
    emails: Vec<EmailRecord>,
    passwords: Vec<PasswordRecord>,
    open: bool,
    staged_accounts: Vec<AccountRecord>,
    staged_emails: Vec<EmailRecord>,
    staged_passwords: Vec<PasswordRecord>,
}

impl View for Store {
    type V = StoreView;

    closed spec fn view(&self) -> StoreView {
        StoreView {
            committed: Tables {
                accounts: account_rows(self.accounts@),
                emails: email_rows(self.emails@),
                passwords: password_rows(self.passwords@),
            },
            pending: if self.open {
                Some(
                    Tables {
                        accounts: account_rows(self.staged_accounts@),
                        emails: email_rows(self.staged_emails@),
                        passwords: password_rows(self.staged_passwords@),
                    },
                )
            } else {
                None
            },
        }
    }
}

fn holds_username(records: &Vec<AccountRecord>, name: &String) -> (found: bool)
    ensures
        found == names(account_rows(records@)).contains(name@),
{
    let ghost all = names(account_rows(records@));
    let mut i: usize = 0;
    while i < records.len()
        invariant
            i <= records@.len(),
            all == names(account_rows(records@)),
            forall|j: int| 0 <= j < i ==> #[trigger] all[j] != name@,
        decreases records@.len() - i,
    {
        if records[i].username == *name {
            assert(all[i as int] == name@);
            return true;
        }
        i = i + 1;
    }
    false
}

fn holds_email(records: &Vec<EmailRecord>, key: &String) -> (found: bool)
    ensures
        found == keys(email_rows(records@)).contains(key@),
{
    let ghost all = keys(email_rows(records@));
    let mut i: usize = 0;
    while i < records.len()
        invariant
            i <= records@.len(),
            all == keys(email_rows(records@)),
            forall|j: int| 0 <= j < i ==> #[trigger] all[j] != key@,
        decreases records@.len() - i,
    {
        if records[i].key == *key {
            assert(all[i as int] == key@);
            return true;
        }
        i = i + 1;
    }
    false
}

fn holds_account_id(records: &Vec<AccountRecord>, id: u128) -> (found: bool)
    ensures
        found == account_ids(account_rows(records@)).contains(id),
{
    let ghost all = account_ids(account_rows(records@));
    let mut i: usize = 0;
    while i < records.len()
        invariant
            i <= records@.len(),
            all == account_ids(account_rows(records@)),
            forall|j: int| 0 <= j < i ==> #[trigger] all[j] != id,
        decreases records@.len() - i,
    {
        if records[i].id == id {
            assert(all[i as int] == id);
            return true;
        }
        i = i + 1;
    }
    false
}

fn holds_email_id(records: &Vec<EmailRecord>, id: u128) -> (found: bool)
    ensures
        found == email_ids(email_rows(records@)).contains(id),
{
    let ghost all = email_ids(email_rows(records@));
    let mut i: usize = 0;
    while i < records.len()
        invariant
            i <= records@.len(),
            all == email_ids(email_rows(records@)),
            forall|j: int| 0 <= j < i ==> #[trigger] all[j] != id,
        decreases records@.len() - i,
    {
        if records[i].id == id {
            assert(all[i as int] == id);
            return true;
        }
        i = i + 1;
    }
    false
}

fn holds_password_id(records: &Vec<PasswordRecord>, id: u128) -> (found: bool)
    ensures
        found == password_ids(password_rows(records@)).contains(id),
{
    let ghost all = password_ids(password_rows(records@));
    let mut i: usize = 0;
    while i < records.len()
        invariant
            i <= records@.len(),
            all == password_ids(password_rows(records@)),
            forall|j: int| 0 <= j < i ==> #[trigger] all[j] != id,
        decreases records@.len() - i,
    {
        if records[i].id == id {
            assert(all[i as int] == id);
            return true;
        }
        i = i + 1;
    }
    false
}

impl Store {
    /// An empty store with no transaction open.
    pub fn new() -> (store: Store)
        ensures
            store@ == (StoreView { committed: Tables::empty(), pending: None }),
            store@.well_formed(),
            forall|name: Seq<char>| !store@.committed.has_username(name),
            forall|key: Seq<char>| !store@.committed.has_email(key),
            forall|id: u128| !store@.committed.has_account_id(id),
            forall|id: u128| !store@.committed.has_email_id(id),
            forall|id: u128| !store@.committed.has_password_id(id),
    {
        let store = Store {
            accounts: Vec::new(),
            emails: Vec::new(),
            passwords: Vec::new(),
            open: false,
            staged_accounts: Vec::new(),
            staged_emails: Vec::new(),
            staged_passwords: Vec::new(),
        };
        assert(store@.committed.accounts =~= Seq::empty());
        assert(store@.committed.emails =~= Seq::empty());
        assert(store@.committed.passwords =~= Seq::empty());
        assert(names(store@.committed.accounts) =~= Seq::empty());
        assert(keys(store@.committed.emails) =~= Seq::empty());
        assert(account_ids(store@.committed.accounts) =~= Seq::empty());
        assert(email_ids(store@.committed.emails) =~= Seq::empty());
        assert(password_ids(store@.committed.passwords) =~= Seq::empty());
        store
    }

    /// Whether a committed account has this username.
    pub fn has_username(&self, name: &String) -> (found: bool)
        ensures
            found == self@.committed.has_username(name@),
    {
        holds_username(&self.accounts, name)
    }

    /// Whether a committed email identity has this address.
    pub fn has_email(&self, key: &String) -> (found: bool)
        ensures
            found == self@.committed.has_email(key@),
    {
        holds_email(&self.emails, key)
    }

    /// Whether a transaction is open.
    pub fn in_transaction(&self) -> (open: bool)
        ensures
            open == (self@.pending is Some),
    {
        self.open
    }

    /// The committed account rows.
    pub fn accounts(&self) -> (rows: &Vec<AccountRecord>)
        ensures
            account_rows(rows@) == self@.committed.accounts,
    {
        &self.accounts
    }

    /// The committed email rows.
    pub fn emails(&self) -> (rows: &Vec<EmailRecord>)
        ensures
            email_rows(rows@) == self@.committed.emails,
    {
        &self.emails
    }

    /// The committed credential rows.
    pub fn passwords(&self) -> (rows: &Vec<PasswordRecord>)
        ensures
            password_rows(rows@) == self@.committed.passwords,
    {
        &self.passwords
    }

    /// Opens a transaction, unless one is open.
    pub fn begin(&mut self) -> (r: Result<(), Fault>)
        ensures
            (final(self)@, done_view(r)) == old(self)@.begin(),
    {
        if self.open {
            return Err(Fault::Other(String::from_str("a transaction is already open")));
        }
        self.staged_accounts = Vec::new();
        self.staged_emails = Vec::new();
        self.staged_passwords = Vec::new();
        self.open = true;
        assert(self@.pending.unwrap().accounts =~= Seq::empty());
        assert(self@.pending.unwrap().emails =~= Seq::empty());
        assert(self@.pending.unwrap().passwords =~= Seq::empty());
        Ok(())
    }

    /// Writes an account row inside the open transaction. The unique index on
    /// username refuses a name that a committed or pending row has, and the
    /// primary key an identifier that one has.
    pub fn insert_account(&mut self, record: AccountRecord) -> (r: Result<(), Fault>)
        ensures
            (final(self)@, done_view(r)) == old(self)@.insert_account(record@),
    {
        if !self.open {
            return Err(Fault::Other(String::from_str("no transaction is open")));
        }
        if holds_username(&self.accounts, &record.username) || holds_username(
            &self.staged_accounts,
            &record.username,
        ) {
            return Err(
                Fault::UniqueViolation(
                    UniqueIndex::Username,
                    String::from_str("unique index on username"),
                ),
            );
        }
        if holds_account_id(&self.accounts, record.id) || holds_account_id(
            &self.staged_accounts,
            record.id,
        ) {
            return Err(
                Fault::UniqueViolation(UniqueIndex::PrimaryKey, String::from_str("primary key")),
            );
        }
        self.staged_accounts.push(record);
        assert(self@.pending.unwrap().accounts =~= old(self)@.pending.unwrap().accounts.push(
            record@,
        ));
        Ok(())
    }

    /// Writes an email row inside the open transaction. The unique index on
    /// the address refuses one that a committed or pending row has, and the
    /// primary key an identifier that one has.
    pub fn insert_email(&mut self, record: EmailRecord) -> (r: Result<(), Fault>)
        ensures
            (final(self)@, done_view(r)) == old(self)@.insert_email(record@),
    {
        if !self.open {
            return Err(Fault::Other(String::from_str("no transaction is open")));
        }
        if holds_email(&self.emails, &record.key) || holds_email(&self.staged_emails, &record.key) {
            return Err(
                Fault::UniqueViolation(
                    UniqueIndex::Email,
                    String::from_str("unique index on email"),
                ),
            );
        }
        if holds_email_id(&self.emails, record.id) || holds_email_id(
            &self.staged_emails,
            record.id,
        ) {
            return Err(
                Fault::UniqueViolation(UniqueIndex::PrimaryKey, String::from_str("primary key")),
            );
        }
        self.staged_emails.push(record);
        assert(self@.pending.unwrap().emails =~= old(self)@.pending.unwrap().emails.push(record@));
        Ok(())
    }

    /// Writes a credential row inside the open transaction. The primary key
    /// refuses an identifier that a committed or pending row has.
    pub fn insert_password(&mut self, record: PasswordRecord) -> (r: Result<(), Fault>)
        ensures
            (final(self)@, done_view(r)) == old(self)@.insert_password(record@),
    {
        if !self.open {
            return Err(Fault::Other(String::from_str("no transaction is open")));
        }
        if holds_password_id(&self.passwords, record.id) || holds_password_id(
            &self.staged_passwords,
            record.id,
        ) {
            return Err(
                Fault::UniqueViolation(UniqueIndex::PrimaryKey, String::from_str("primary key")),
            );
        }
        self.staged_passwords.push(record);
        assert(self@.pending.unwrap().passwords =~= old(self)@.pending.unwrap().passwords.push(
            record@,
        ));
        Ok(())
    }

    /// Commits the open transaction: its rows become visible, in the order
    /// they were written.
    pub fn commit(&mut self) -> (r: Result<(), Fault>)
        ensures
            (final(self)@, done_view(r)) == old(self)@.commit(),
    {
        if !self.open {
            return Err(Fault::Other(String::from_str("no transaction is open")));
        }
        self.accounts.append(&mut self.staged_accounts);
        self.emails.append(&mut self.staged_emails);
        self.passwords.append(&mut self.staged_passwords);
        self.open = false;
        assert(self@.committed.accounts =~= old(self)@.committed.accounts + old(
            self,
        )@.pending.unwrap().accounts);
        assert(self@.committed.emails =~= old(self)@.committed.emails + old(
            self,
        )@.pending.unwrap().emails);
        assert(self@.committed.passwords =~= old(self)@.committed.passwords + old(
            self,
        )@.pending.unwrap().passwords);
        Ok(())
    }

    /// Ends the open transaction and drops what it wrote. Without an open
    /// transaction nothing happens.
    pub fn rollback(&mut self)
        ensures
            final(self)@ == old(self)@.rollback(),
    {
        self.open = false;
    }
}

} // verus!
