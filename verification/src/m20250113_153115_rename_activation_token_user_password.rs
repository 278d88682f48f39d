//! The step that moves activation from the credential to the email: the
//! credential table loses `active` and `activation_token` and gains a
//! `reset_token` that may be null.

use vstd::prelude::*;
use crate::schema::{
    added, boolean, changed, changed_by_all, changes_view, column_names, dropped,
    lemma_changed_by_add, lemma_changed_by_drop, lemma_changed_by_first, lemma_changed_by_one,
    lemma_names_added, lemma_names_dropped, required, uuid, uuid_null, Change, ChangeView, Column,
    ColumnDef, ColumnType, DefaultValue, SchemaError, SchemaView, Table,
};

verus! {

pub struct Migration;

/// The column that the step adds.
pub open spec fn reset_token() -> ColumnDef {
    ColumnDef { not_null: false, ..required(Column::ResetToken, ColumnType::Uuid) }
}

/// The `active` column that taking the step back adds: true unless said
/// otherwise.
pub open spec fn active() -> ColumnDef {
    ColumnDef { default: DefaultValue::Bool(true), ..required(Column::Active, ColumnType::Boolean) }
}

/// The `activation_token` column that taking the step back adds.
pub open spec fn activation_token() -> ColumnDef {
    required(Column::ActivationToken, ColumnType::Uuid)
}

pub open spec fn drop_if_there(column: Column) -> ChangeView {
    ChangeView::DropColumn { table: Table::UserPassword, if_exists: true, column }
}

pub open spec fn add_unless_there(column: ColumnDef) -> ChangeView {
    ChangeView::AddColumn { table: Table::UserPassword, if_not_exists: true, column }
}

/// Forward: drop the two columns where they are there, then add the reset
/// token unless it is there.
pub open spec fn up_plan() -> Seq<ChangeView> {
    seq![
        drop_if_there(Column::Active),
        drop_if_there(Column::ActivationToken),
        add_unless_there(reset_token()),
    ]
}

/// Backward: drop the reset token where it is there, then add the two
/// columns unless they are there.
pub open spec fn down_plan() -> Seq<ChangeView> {
    seq![
        drop_if_there(Column::ResetToken),
        add_unless_there(active()),
        add_unless_there(activation_token()),
    ]
}

/// The credential columns after the step.
pub open spec fn upgraded(columns: Seq<ColumnDef>) -> Seq<ColumnDef> {
    added(dropped(dropped(columns, Column::Active), Column::ActivationToken), reset_token())
}

/// The credential columns after the step is taken back.
pub open spec fn downgraded(columns: Seq<ColumnDef>) -> Seq<ColumnDef> {
    added(added(dropped(columns, Column::ResetToken), active()), activation_token())
}

/// Whether the columns have this name.
pub open spec fn holds(columns: Seq<ColumnDef>, name: Column) -> bool {
    column_names(columns).contains(name)
}

impl Migration {
    /// The step's place in the order of steps.
    pub fn version(&self) -> (version: u64)
        ensures
            version == 20250113153115,
    {
        20250113153115
    }

    /// The name under which the ledger records the step.
    pub fn name(&self) -> (name: &'static str)
        ensures
            name@ == "m20250113_153115_rename_activation_token_user_password"@,
    {
        "m20250113_153115_rename_activation_token_user_password"
    }

    /// The changes that apply the step.
    pub fn up(&self) -> (changes: Vec<Change>)
        ensures
            changes_view(changes@) == up_plan(),
    {
        let table = Table::UserPassword;
        let mut changes: Vec<Change> = Vec::new();
        changes.push(Change::DropColumn { table, if_exists: true, column: Column::Active });
        changes.push(
            Change::DropColumn { table, if_exists: true, column: Column::ActivationToken },
        );
        changes.push(
            Change::AddColumn {
                table,
                if_not_exists: true,
                column: uuid_null(Column::ResetToken),
            },
        );
        assert(changes_view(changes@) =~= up_plan());
        changes
    }

    /// The changes that take the step back.
    pub fn down(&self) -> (changes: Vec<Change>)
        ensures
            changes_view(changes@) == down_plan(),
    {
        let table = Table::UserPassword;
        let mut changes: Vec<Change> = Vec::new();
        changes.push(Change::DropColumn { table, if_exists: true, column: Column::ResetToken });
        changes.push(
            Change::AddColumn {
                table,
                if_not_exists: true,
                column: boolean(Column::Active).default(DefaultValue::Bool(true)).not_null(),
            },
        );
        changes.push(
            Change::AddColumn {
                table,
                if_not_exists: true,
                column: uuid(Column::ActivationToken).not_null(),
            },
        );
        assert(changes_view(changes@) =~= down_plan());
        changes
    }
}

/// Forward. Applied to a schema with the credential table, the step
/// succeeds: `active` and `activation_token` are gone, the reset token is
/// there, and every other column and table is as it was. Without the table
/// the step is refused.
pub proof fn lemma_up_moves_activation_out(schema: SchemaView)
    ensures
        changed_by_all(schema, up_plan()) == (if schema.dom().contains(Table::UserPassword) {
            Ok::<SchemaView, SchemaError>(
                schema.insert(Table::UserPassword, upgraded(schema[Table::UserPassword])),
            )
        } else {
            Err::<SchemaView, SchemaError>(SchemaError::NoSuchTable(Table::UserPassword))
        }),
        forall|columns: Seq<ColumnDef>, name: Column|
            #[trigger] holds(upgraded(columns), name) <==> (name == Column::ResetToken || (name
                != Column::Active && name != Column::ActivationToken && holds(columns, name))),
{
    let table = Table::UserPassword;
    let plan = up_plan();
    assert(plan =~= seq![plan[0]] + seq![plan[1], plan[2]]);
    assert(seq![plan[1], plan[2]] =~= seq![plan[1]] + seq![plan[2]]);
    lemma_changed_by_first(schema, plan[0], seq![plan[1], plan[2]]);
    if schema.dom().contains(table) {
        let columns = schema[table];
        let one = schema.insert(table, dropped(columns, Column::Active));
        let two = one.insert(table, dropped(one[table], Column::ActivationToken));
        lemma_changed_by_drop(schema, table, Column::Active);
        lemma_changed_by_first(one, plan[1], seq![plan[2]]);
        lemma_changed_by_drop(one, table, Column::ActivationToken);
        lemma_changed_by_one(two, plan[2]);
        lemma_changed_by_add(two, table, reset_token());
        assert(two.insert(table, added(two[table], reset_token())) =~= schema.insert(
            table,
            upgraded(columns),
        ));
    }
    assert forall|columns: Seq<ColumnDef>, name: Column|
        #[trigger] holds(upgraded(columns), name) <==> (name == Column::ResetToken || (name
            != Column::Active && name != Column::ActivationToken && holds(columns, name))) by {
        let first = dropped(columns, Column::Active);
        let second = dropped(first, Column::ActivationToken);
        lemma_names_dropped(columns, Column::Active, name);
        lemma_names_dropped(first, Column::ActivationToken, name);
        lemma_names_added(second, reset_token(), name);
    }
}

/// Backward. Applied to a schema with the credential table, taking the step
/// back succeeds: the reset token is gone, `active` and `activation_token`
/// are there, and every other column and table is as it was. Without the
/// table it is refused.
pub proof fn lemma_down_moves_activation_in(schema: SchemaView)
    ensures
        changed_by_all(schema, down_plan()) == (if schema.dom().contains(Table::UserPassword) {
            Ok::<SchemaView, SchemaError>(
                schema.insert(Table::UserPassword, downgraded(schema[Table::UserPassword])),
            )
        } else {
            Err::<SchemaView, SchemaError>(SchemaError::NoSuchTable(Table::UserPassword))
        }),
        forall|columns: Seq<ColumnDef>, name: Column|
            #[trigger] holds(downgraded(columns), name) <==> (name == Column::Active || name
                == Column::ActivationToken || (name != Column::ResetToken && holds(columns, name))),
{
    let table = Table::UserPassword;
    let plan = down_plan();
    assert(plan =~= seq![plan[0]] + seq![plan[1], plan[2]]);
    assert(seq![plan[1], plan[2]] =~= seq![plan[1]] + seq![plan[2]]);
    lemma_changed_by_first(schema, plan[0], seq![plan[1], plan[2]]);
    if schema.dom().contains(table) {
        let columns = schema[table];
        let one = schema.insert(table, dropped(columns, Column::ResetToken));
        let two = one.insert(table, added(one[table], active()));
        lemma_changed_by_drop(schema, table, Column::ResetToken);
        lemma_changed_by_first(one, plan[1], seq![plan[2]]);
        lemma_changed_by_add(one, table, active());
        lemma_changed_by_one(two, plan[2]);
        lemma_changed_by_add(two, table, activation_token());
        assert(two.insert(table, added(two[table], activation_token())) =~= schema.insert(
            table,
            downgraded(columns),
        ));
    }
    assert forall|columns: Seq<ColumnDef>, name: Column|
        #[trigger] holds(downgraded(columns), name) <==> (name == Column::Active || name
            == Column::ActivationToken || (name != Column::ResetToken && holds(columns, name))) by {
        let first = dropped(columns, Column::ResetToken);
        let second = added(first, active());
        lemma_names_dropped(columns, Column::ResetToken, name);
        lemma_names_added(first, active(), name);
        lemma_names_added(second, activation_token(), name);
    }
}

/// Applied again, the step does nothing: forward twice is forward once, and
/// backward twice is backward once. No column is added twice and none is
/// dropped that the first run left.
pub proof fn lemma_step_is_idempotent(schema: SchemaView)
    ensures
        changed_by_all(schema, up_plan()) matches Ok(once) ==> changed_by_all(once, up_plan())
            == Ok::<SchemaView, SchemaError>(once),
        changed_by_all(schema, down_plan()) matches Ok(once) ==> changed_by_all(once, down_plan())
            == Ok::<SchemaView, SchemaError>(once),
{
    let table = Table::UserPassword;
    lemma_up_moves_activation_out(schema);
    lemma_down_moves_activation_in(schema);
    if schema.dom().contains(table) {
        let columns = schema[table];
        let up = schema.insert(table, upgraded(columns));
        lemma_up_moves_activation_out(up);
        assert(holds(upgraded(columns), Column::ResetToken));
        assert(!holds(upgraded(columns), Column::Active));
        assert(!holds(upgraded(columns), Column::ActivationToken));
        assert(upgraded(upgraded(columns)) == upgraded(columns));
        assert(up.insert(table, upgraded(columns)) =~= up);

        let down = schema.insert(table, downgraded(columns));
        lemma_down_moves_activation_in(down);
        assert(!holds(downgraded(columns), Column::ResetToken));
        assert(holds(downgraded(columns), Column::Active));
        assert(holds(downgraded(columns), Column::ActivationToken));
        lemma_names_added(
            dropped(downgraded(columns), Column::ResetToken),
            active(),
            Column::ActivationToken,
        );
        assert(downgraded(downgraded(columns)) == downgraded(columns));
        assert(down.insert(table, downgraded(columns)) =~= down);
    }
}

/// Backward undoes forward. For a credential table that has `active` and
/// `activation_token` and no reset token, as just before the step, the step
/// and its taking back both succeed and leave the table with the column
/// names it had: the reset token is gone again and the two columns are
/// back.
pub proof fn lemma_down_reverts_up(schema: SchemaView)
    requires
        schema.dom().contains(Table::UserPassword),
        holds(schema[Table::UserPassword], Column::Active),
        holds(schema[Table::UserPassword], Column::ActivationToken),
        !holds(schema[Table::UserPassword], Column::ResetToken),
    ensures
        changed_by_all(schema, up_plan()) is Ok,
        changed_by_all(changed_by_all(schema, up_plan())->Ok_0, down_plan()) == Ok::<
            SchemaView,
            SchemaError,
        >(
            schema.insert(
                Table::UserPassword,
                downgraded(upgraded(schema[Table::UserPassword])),
            ),
        ),
        forall|name: Column|
            holds(downgraded(upgraded(schema[Table::UserPassword])), name) <==> holds(
                schema[Table::UserPassword],
                name,
            ),
{
    let table = Table::UserPassword;
    let columns = schema[table];
    lemma_up_moves_activation_out(schema);
    let up = schema.insert(table, upgraded(columns));
    lemma_down_moves_activation_in(up);
    assert(up.insert(table, downgraded(upgraded(columns))) =~= schema.insert(
        table,
        downgraded(upgraded(columns)),
    ));
    assert forall|name: Column|
        holds(downgraded(upgraded(columns)), name) <==> holds(columns, name) by {
        assert(holds(downgraded(upgraded(columns)), name) <==> (name == Column::Active || name
            == Column::ActivationToken || (name != Column::ResetToken && holds(
            upgraded(columns),
            name,
        ))));
    }
}

} // verus!
