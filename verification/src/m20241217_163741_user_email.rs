//! The step that creates the table of email identities.

use vstd::prelude::*;
use crate::schema::{
    boolean, changed, changed_by_all, changes_view, date_time, lemma_changed_by_one, pk_uuid,
    required, string, uuid, Change, ChangeView, Column, ColumnDef, ColumnType, DefaultValue,
    SchemaError, SchemaView, Table,
};

verus! {

pub struct Migration;

/// A timestamp column that is filled with the time of the insert.
pub open spec fn stamped(name: Column) -> ColumnDef {
    ColumnDef {
        default: DefaultValue::CurrentTimestamp,
        ..required(name, ColumnType::TimestampWithTimeZone)
    }
}

/// The columns of the table: a generated identifier, the `active` flag that
/// starts as false, the address under a unique index, the activation token,
/// the owning account and the two timestamps.
pub open spec fn columns() -> Seq<ColumnDef> {
    seq![
        ColumnDef {
            primary_key: true,
            unique_key: true,
            default: DefaultValue::RandomUuid,
            ..required(Column::Id, ColumnType::Uuid)
        },
        ColumnDef { default: DefaultValue::Bool(false), ..required(Column::Active, ColumnType::Boolean) },
        ColumnDef { unique_key: true, ..required(Column::Key, ColumnType::String) },
        required(Column::ActivationToken, ColumnType::Uuid),
        required(Column::UserId, ColumnType::Uuid),
        stamped(Column::CreatedAt),
        stamped(Column::UpdatedAt),
    ]
}

/// Forward: create the table unless it exists.
pub open spec fn up_plan() -> Seq<ChangeView> {
    seq![ChangeView::CreateTable { table: Table::UserEmail, if_not_exists: true, columns: columns() }]
}

/// Backward: drop the table if it exists.
pub open spec fn down_plan() -> Seq<ChangeView> {
    seq![ChangeView::DropTable { table: Table::UserEmail, if_exists: true }]
}

impl Migration {
    /// The step's place in the order of steps.
    pub fn version(&self) -> (version: u64)
        ensures
            version == 20241217163741,
    {
        20241217163741
    }

    /// The name under which the ledger records the step.
    pub fn name(&self) -> (name: &'static str)
        ensures
            name@ == "m20241217_163741_user_email"@,
    {
        "m20241217_163741_user_email"
    }

    /// The changes that apply the step.
    pub fn up(&self) -> (changes: Vec<Change>)
        ensures
            changes_view(changes@) == up_plan(),
    {
        let mut columns: Vec<ColumnDef> = Vec::new();
        columns.push(pk_uuid(Column::Id).unique_key().default(DefaultValue::RandomUuid));
        columns.push(boolean(Column::Active).not_null().default(DefaultValue::Bool(false)));
        columns.push(string(Column::Key).not_null().unique_key());
        columns.push(uuid(Column::ActivationToken).not_null());
        columns.push(uuid(Column::UserId).not_null());
        columns.push(
            date_time(Column::CreatedAt).timestamp_with_time_zone().not_null().default(
                DefaultValue::CurrentTimestamp,
            ),
        );
        columns.push(
            date_time(Column::UpdatedAt).timestamp_with_time_zone().not_null().default(
                DefaultValue::CurrentTimestamp,
            ),
        );
        assert(columns@ =~= self::columns());
        let mut changes: Vec<Change> = Vec::new();
        changes.push(Change::CreateTable { table: Table::UserEmail, if_not_exists: true, columns });
        assert(changes_view(changes@) =~= up_plan());
        changes
    }

    /// The changes that take the step back.
    pub fn down(&self) -> (changes: Vec<Change>)
        ensures
            changes_view(changes@) == down_plan(),
    {
        let mut changes: Vec<Change> = Vec::new();
        changes.push(Change::DropTable { table: Table::UserEmail, if_exists: true });
        assert(changes_view(changes@) =~= down_plan());
        changes
    }
}

/// The step can always be applied: it creates the table with its seven
/// columns, or leaves a schema that has the table as it is.
pub proof fn lemma_up_creates_the_table(schema: SchemaView)
    ensures
        changed_by_all(schema, up_plan()) == Ok::<SchemaView, SchemaError>(
            if schema.dom().contains(Table::UserEmail) {
                schema
            } else {
                schema.insert(Table::UserEmail, columns())
            },
        ),
{
    lemma_changed_by_one(schema, up_plan()[0]);
    assert(up_plan() =~= seq![up_plan()[0]]);
}

/// The table that the step creates holds each address once: its `key`
/// column, and no other than `key` and `id`, is under a unique index.
pub proof fn lemma_address_is_unique()
    ensures
        forall|i: int|
            0 <= i < columns().len() ==> ((#[trigger] columns()[i]).unique_key <==> (columns()[i].name
                == Column::Key || columns()[i].name == Column::Id)),
        exists|i: int|
            0 <= i < columns().len() && (#[trigger] columns()[i]).name == Column::Key
                && columns()[i].unique_key,
{
    assert(columns()[2].name == Column::Key && columns()[2].unique_key);
}

/// The step can always be taken back: the table is gone, and a schema
/// without the table is left as it is.
pub proof fn lemma_down_drops_the_table(schema: SchemaView)
    ensures
        changed_by_all(schema, down_plan()) == Ok::<SchemaView, SchemaError>(
            if schema.dom().contains(Table::UserEmail) {
                schema.remove(Table::UserEmail)
            } else {
                schema
            },
        ),
{
    lemma_changed_by_one(schema, down_plan()[0]);
    assert(down_plan() =~= seq![down_plan()[0]]);
}

/// Applied again, the step does nothing: forward twice is forward once, and
/// backward twice is backward once.
pub proof fn lemma_step_is_idempotent(schema: SchemaView)
    ensures
        changed_by_all(schema, up_plan()) is Ok,
        changed_by_all(changed_by_all(schema, up_plan())->Ok_0, up_plan()) == changed_by_all(
            schema,
            up_plan(),
        ),
        changed_by_all(schema, down_plan()) is Ok,
        changed_by_all(changed_by_all(schema, down_plan())->Ok_0, down_plan()) == changed_by_all(
            schema,
            down_plan(),
        ),
{
    lemma_up_creates_the_table(schema);
    lemma_up_creates_the_table(changed_by_all(schema, up_plan())->Ok_0);
    lemma_down_drops_the_table(schema);
    lemma_down_drops_the_table(changed_by_all(schema, down_plan())->Ok_0);
}

/// Applied to a schema without the table and then taken back, the step
/// leaves the schema as it was.
pub proof fn lemma_down_reverts_up(schema: SchemaView)
    requires
        !schema.dom().contains(Table::UserEmail),
    ensures
        changed_by_all(schema, up_plan()) is Ok,
        changed_by_all(changed_by_all(schema, up_plan())->Ok_0, down_plan()) == Ok::<
            SchemaView,
            SchemaError,
        >(schema),
{
    lemma_up_creates_the_table(schema);
    let created = schema.insert(Table::UserEmail, columns());
    lemma_down_drops_the_table(created);
    assert(created.remove(Table::UserEmail) =~= schema);
}

} // verus!
