//! Schema steps in their fixed order, the ledger of the steps that were
//! applied, and the run that applies what is pending.

use vstd::prelude::*;
use crate::schema::{
    changed_by_all, changes_view, Change, ChangeView, Schema, SchemaError, SchemaView,
};

verus! {

/// One schema step: its place in the order, and the changes that apply it
/// and take it back.
pub struct Step {
    pub version: u64,
    pub up: Vec<Change>,
    pub down: Vec<Change>,
}

pub struct StepView {
    pub version: u64,
    pub up: Seq<ChangeView>,
    pub down: Seq<ChangeView>,
}

impl View for Step {
    type V = StepView;

    open spec fn view(&self) -> StepView {
        StepView {
            version: self.version,
            up: changes_view(self.up@),
            down: changes_view(self.down@),
        }
    }
}

/// The views of a list of steps.
pub open spec fn steps_view(steps: Seq<Step>) -> Seq<StepView> {
    steps.map_values(|step: Step| step@)
}

/// The steps of this service, oldest first.
pub open spec fn plan() -> Seq<StepView> {
    seq![
        StepView {
            version: 20241217163741,
            up: crate::m20241217_163741_user_email::up_plan(),
            down: crate::m20241217_163741_user_email::down_plan(),
        },
        StepView {
            version: 20250113153115,
            up: crate::m20250113_153115_rename_activation_token_user_password::up_plan(),
            down: crate::m20250113_153115_rename_activation_token_user_password::down_plan(),
        },
    ]
}

/// Whether the versions rise strictly along the list.
pub open spec fn rising(steps: Seq<StepView>) -> bool {
    forall|i: int, j: int|
        0 <= i < j < steps.len() ==> (#[trigger] steps[i]).version < (#[trigger] steps[j]).version
}

pub struct Migrator;

impl Migrator {
    /// The steps of this service, oldest first.
    pub fn migrations() -> (steps: Vec<Step>)
        ensures
            steps_view(steps@) == plan(),
            rising(steps_view(steps@)),
    {
        let email = crate::m20241217_163741_user_email::Migration;
        let password = crate::m20250113_153115_rename_activation_token_user_password::Migration;
        let mut steps: Vec<Step> = Vec::new();
        steps.push(Step { version: email.version(), up: email.up(), down: email.down() });
        steps.push(Step { version: password.version(), up: password.up(), down: password.down() });
        assert(steps_view(steps@) =~= plan());
        steps
    }
}

/// A database as the steps see it: its schema and the ledger of applied
/// versions, in the order they were applied.
pub struct DatabaseView {
    pub schema: SchemaView,
    pub applied: Seq<u64>,
}

/// How a run leaves the database, and the refusal that stopped it, if one
/// did.
pub struct Migrated {
    pub database: DatabaseView,
    pub stopped: Option<SchemaError>,
}

impl DatabaseView {
    /// The versions among `steps` that the ledger lacks, in the steps' order.
    pub open spec fn pending(self, steps: Seq<StepView>) -> Seq<u64>
        decreases steps.len(),
    {
        if steps.len() == 0 {
            Seq::empty()
        } else if self.applied.contains(steps[0].version) {
            self.pending(steps.drop_first())
        } else {
            seq![steps[0].version] + self.pending(steps.drop_first())
        }
    }

    /// The run: each step that the ledger lacks is applied, all of its
    /// changes or none, and then recorded. The first refusal stops the run
    /// and leaves the database as the steps before it made it.
    pub open spec fn migrated(self, steps: Seq<StepView>) -> Migrated
        decreases steps.len(),
    {
        if steps.len() == 0 {
            Migrated { database: self, stopped: None }
        } else if self.applied.contains(steps[0].version) {
            self.migrated(steps.drop_first())
        } else {
            match changed_by_all(self.schema, steps[0].up) {
                Err(e) => Migrated { database: self, stopped: Some(e) },
                Ok(schema) => (DatabaseView {
                    schema,
                    applied: self.applied.push(steps[0].version),
                }).migrated(steps.drop_first()),
            }
        }
    }
}

/// A model of the database that the steps are run on.
pub struct Database {
    schema: Schema,
    applied: Vec<u64>,
}

impl View for Database {
    type V = DatabaseView;

    closed spec fn view(&self) -> DatabaseView {
        DatabaseView { schema: self.schema@, applied: self.applied@ }
    }
}

fn holds_version(applied: &Vec<u64>, version: u64) -> (found: bool)
    ensures
        found == applied@.contains(version),
{
    let mut i: usize = 0;
    while i < applied.len()
        invariant
            i <= applied@.len(),
            forall|j: int| 0 <= j < i ==> applied@[j] != version,
        decreases applied@.len() - i,
    {
        if applied[i] == version {
            return true;
        }
        i = i + 1;
    }
    false
}

impl Database {
    /// A database without tables and with an empty ledger.
    pub fn new() -> (database: Database)
        ensures
            database@ == (DatabaseView { schema: Map::empty(), applied: Seq::empty() }),
    {
        Database { schema: Schema::new(), applied: Vec::new() }
    }

    /// A database with the given schema and an empty ledger.
    pub fn with_schema(schema: Schema) -> (database: Database)
        ensures
            database@ == (DatabaseView { schema: schema@, applied: Seq::empty() }),
    {
        Database { schema, applied: Vec::new() }
    }

    /// The schema.
    pub fn schema(&self) -> (schema: &Schema)
        ensures
            schema@ == self@.schema,
    {
        &self.schema
    }

    /// The ledger.
    pub fn applied(&self) -> (applied: &Vec<u64>)
        ensures
            applied@ == self@.applied,
    {
        &self.applied
    }

    /// The versions that a run would apply, in order.
    pub fn pending(&self, steps: &Vec<Step>) -> (versions: Vec<u64>)
        ensures
            versions@ == self@.pending(steps_view(steps@)),
    {
        let ghost all = steps_view(steps@);
        let mut versions: Vec<u64> = Vec::new();
        let mut i: usize = 0;
        assert(all.skip(0) =~= all);
        while i < steps.len()
            invariant
                i <= steps@.len(),
                all == steps_view(steps@),
                versions@ + self@.pending(all.skip(i as int)) == self@.pending(all),
            decreases steps@.len() - i,
        {
            let ghost before = versions@;
            assert(all.skip(i as int)[0] == steps@[i as int]@);
            assert(all.skip(i as int).drop_first() =~= all.skip(i + 1));
            if !holds_version(&self.applied, steps[i].version) {
                versions.push(steps[i].version);
                assert(versions@ + self@.pending(all.skip(i + 1)) =~= before + self@.pending(
                    all.skip(i as int),
                ));
            }
            i = i + 1;
        }
        assert(versions@ + Seq::<u64>::empty() =~= versions@);
        versions
    }

    /// Applies the pending steps in order and records each in the ledger.
    /// Returns the refusal that stopped the run, if one did.
    pub fn migrate(&mut self, steps: &Vec<Step>) -> (r: Result<(), SchemaError>)
        ensures
            final(self)@ == old(self)@.migrated(steps_view(steps@)).database,
            r == match old(self)@.migrated(steps_view(steps@)).stopped {
                None => Ok::<(), SchemaError>(()),
                Some(e) => Err(e),
            },
    {
        let ghost all = steps_view(steps@);
        let mut i: usize = 0;
        assert(all.skip(0) =~= all);
        while i < steps.len()
            invariant
                i <= steps@.len(),
                all == steps_view(steps@),
                self@.migrated(all.skip(i as int)) == old(self)@.migrated(all),
            decreases steps@.len() - i,
        {
            assert(all.skip(i as int)[0] == steps@[i as int]@);
            assert(all.skip(i as int).drop_first() =~= all.skip(i + 1));
            if !holds_version(&self.applied, steps[i].version) {
                match self.schema.apply_all(&steps[i].up) {
                    Err(e) => {
                        return Err(e);
                    },
                    Ok(()) => {
                        self.applied.push(steps[i].version);
                    },
                }
            }
            i = i + 1;
        }
        Ok(())
    }
}

/// A run only adds to the ledger.
pub proof fn lemma_ledger_grows(database: DatabaseView, steps: Seq<StepView>, version: u64)
    requires
        database.applied.contains(version),
    ensures
        database.migrated(steps).database.applied.contains(version),
    decreases steps.len(),
{
    if steps.len() > 0 {
        if database.applied.contains(steps[0].version) {
            lemma_ledger_grows(database, steps.drop_first(), version);
        } else {
            match changed_by_all(database.schema, steps[0].up) {
                Err(_) => {},
                Ok(schema) => {
                    let next = DatabaseView {
                        schema,
                        applied: database.applied.push(steps[0].version),
                    };
                    let i = choose|i: int|
                        0 <= i < database.applied.len() && database.applied[i] == version;
                    assert(next.applied[i] == version);
                    lemma_ledger_grows(next, steps.drop_first(), version);
                },
            }
        }
    }
}

/// Running the steps twice is running them once: the second run finds the
/// database as the first left it, leaves it so, and ends as the first did.
/// After a run without refusal no step is applied again and none is
/// refused.
pub proof fn lemma_migrating_twice_is_migrating_once(database: DatabaseView, steps: Seq<StepView>)
    ensures
        database.migrated(steps).database.migrated(steps) == database.migrated(steps),
    decreases steps.len(),
{
    if steps.len() > 0 {
        let rest = steps.drop_first();
        let version = steps[0].version;
        if database.applied.contains(version) {
            lemma_migrating_twice_is_migrating_once(database, rest);
            lemma_ledger_grows(database, rest, version);
        } else {
            match changed_by_all(database.schema, steps[0].up) {
                Err(_) => {},
                Ok(schema) => {
                    let next = DatabaseView { schema, applied: database.applied.push(version) };
                    assert(next.applied[database.applied.len() as int] == version);
                    lemma_migrating_twice_is_migrating_once(next, rest);
                    lemma_ledger_grows(next, rest, version);
                },
            }
        }
    }
}

/// A run that was not stopped leaves nothing pending.
pub proof fn lemma_nothing_pending_after_a_full_run(database: DatabaseView, steps: Seq<StepView>)
    requires
        database.migrated(steps).stopped is None,
    ensures
        database.migrated(steps).database.pending(steps) == Seq::<u64>::empty(),
    decreases steps.len(),
{
    if steps.len() > 0 {
        let rest = steps.drop_first();
        let version = steps[0].version;
        if database.applied.contains(version) {
            lemma_nothing_pending_after_a_full_run(database, rest);
            lemma_ledger_grows(database, rest, version);
        } else {
            match changed_by_all(database.schema, steps[0].up) {
                Err(_) => {},
                Ok(schema) => {
                    let next = DatabaseView { schema, applied: database.applied.push(version) };
                    assert(next.applied[database.applied.len() as int] == version);
                    lemma_nothing_pending_after_a_full_run(next, rest);
                    lemma_ledger_grows(next, rest, version);
                },
            }
        }
    }
}

/// With nothing pending a run changes nothing and is not stopped.
pub proof fn lemma_nothing_pending_nothing_done(database: DatabaseView, steps: Seq<StepView>)
    requires
        database.pending(steps) == Seq::<u64>::empty(),
    ensures
        database.migrated(steps) == (Migrated { database, stopped: None }),
    decreases steps.len(),
{
    if steps.len() > 0 {
        if database.applied.contains(steps[0].version) {
            lemma_nothing_pending_nothing_done(database, steps.drop_first());
        } else {
            assert((seq![steps[0].version] + database.pending(steps.drop_first())).len() > 0);
        }
    }
}

} // verus!
