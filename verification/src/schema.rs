//! The persisted shape of the email and credential tables, the changes that
//! schema steps make to it, and a model of a database schema that the
//! changes are applied to.

use vstd::prelude::*;

verus! {

/// A table that the steps speak of.
#[derive(Clone, Copy, Debug, PartialEq, Eq, Structural)]
pub enum Table {
    UserEmail,
    UserPassword,
}

/// A column that the steps speak of.
#[derive(Clone, Copy, Debug, PartialEq, Eq, Structural)]
pub enum Column {
    Id,
    Key,
    Active,
    ActivationToken,
    UserId,
    CreatedAt,
    UpdatedAt,
    ResetToken,
}

/// The type of a column.
#[derive(Clone, Copy, Debug, PartialEq, Eq, Structural)]
pub enum ColumnType {
    Uuid,
    Boolean,
    String,
    DateTime,
    TimestampWithTimeZone,
}

/// What a column holds when a row names no value.
#[derive(Clone, Copy, Debug, PartialEq, Eq, Structural)]
pub enum DefaultValue {
    Nothing,
    Bool(bool),
    /// `gen_random_uuid()`
    RandomUuid,
    CurrentTimestamp,
}

/// The definition of one column.
#[derive(Clone, Copy, Debug, PartialEq, Eq, Structural)]
pub struct ColumnDef {
    pub name: Column,
    pub kind: ColumnType,
    pub not_null: bool,
    pub primary_key: bool,
    pub unique_key: bool,
    pub default: DefaultValue,
}

impl Table {
    pub open spec fn spec_name(self) -> Seq<char> {
        match self {
            Table::UserEmail => "user_email"@,
            Table::UserPassword => "user_password"@,
        }
    }

    /// The table's name in the database.
    pub fn name(&self) -> (name: &'static str)
        ensures
            name@ == self.spec_name(),
    {
        match self {
            Table::UserEmail => "user_email",
            Table::UserPassword => "user_password",
        }
    }
}

impl Column {
    pub open spec fn spec_name(self) -> Seq<char> {
        match self {
            Column::Id => "id"@,
            Column::Key => "key"@,
            Column::Active => "active"@,
            Column::ActivationToken => "activation_token"@,
            Column::UserId => "user_id"@,
            Column::CreatedAt => "created_at"@,
            Column::UpdatedAt => "updated_at"@,
            Column::ResetToken => "reset_token"@,
        }
    }

    /// The column's name in the database.
    pub fn name(&self) -> (name: &'static str)
        ensures
            name@ == self.spec_name(),
    {
        match self {
            Column::Id => "id",
            Column::Key => "key",
            Column::Active => "active",
            Column::ActivationToken => "activation_token",
            Column::UserId => "user_id",
            Column::CreatedAt => "created_at",
            Column::UpdatedAt => "updated_at",
            Column::ResetToken => "reset_token",
        }
    }
}

/// A column of the given type that takes no null.
pub open spec fn required(name: Column, kind: ColumnType) -> ColumnDef {
    ColumnDef {
        name,
        kind,
        not_null: true,
        primary_key: false,
        unique_key: false,
        default: DefaultValue::Nothing,
    }
}

impl ColumnDef {
    fn required(name: Column, kind: ColumnType) -> (column: ColumnDef)
        ensures
            column == required(name, kind),
    {
        ColumnDef {
            name,
            kind,
            not_null: true,
            primary_key: false,
            unique_key: false,
            default: DefaultValue::Nothing,
        }
    }

    /// The same column as a primary key.
    pub fn primary_key(self) -> (column: ColumnDef)
        ensures
            column == (ColumnDef { primary_key: true, ..self }),
    {
        ColumnDef { primary_key: true, ..self }
    }

    /// The same column under a unique index.
    pub fn unique_key(self) -> (column: ColumnDef)
        ensures
            column == (ColumnDef { unique_key: true, ..self }),
    {
        ColumnDef { unique_key: true, ..self }
    }

    /// The same column, taking no null.
    pub fn not_null(self) -> (column: ColumnDef)
        ensures
            column == (ColumnDef { not_null: true, ..self }),
    {
        ColumnDef { not_null: true, ..self }
    }

    /// The same column, taking null.
    pub fn null(self) -> (column: ColumnDef)
        ensures
            column == (ColumnDef { not_null: false, ..self }),
    {
        ColumnDef { not_null: false, ..self }
    }

    /// The same column with a default.
    pub fn default(self, value: DefaultValue) -> (column: ColumnDef)
        ensures
            column == (ColumnDef { default: value, ..self }),
    {
        ColumnDef { default: value, ..self }
    }

    /// The same column as a timestamp with time zone.
    pub fn timestamp_with_time_zone(self) -> (column: ColumnDef)
        ensures
            column == (ColumnDef { kind: ColumnType::TimestampWithTimeZone, ..self }),
    {
        ColumnDef { kind: ColumnType::TimestampWithTimeZone, ..self }
    }
}

/// A UUID column that takes no null.
pub fn uuid(name: Column) -> (column: ColumnDef)
    ensures
        column == required(name, ColumnType::Uuid),
{
    ColumnDef::required(name, ColumnType::Uuid)
}

/// A UUID column that takes null.
pub fn uuid_null(name: Column) -> (column: ColumnDef)
    ensures
        column == (ColumnDef { not_null: false, ..required(name, ColumnType::Uuid) }),
{
    ColumnDef::required(name, ColumnType::Uuid).null()
}

/// A UUID column that is the primary key.
pub fn pk_uuid(name: Column) -> (column: ColumnDef)
    ensures
        column == (ColumnDef { primary_key: true, ..required(name, ColumnType::Uuid) }),
{
    uuid(name).primary_key()
}

/// A boolean column that takes no null.
pub fn boolean(name: Column) -> (column: ColumnDef)
    ensures
        column == required(name, ColumnType::Boolean),
{
    ColumnDef::required(name, ColumnType::Boolean)
}

/// A string column that takes no null.
pub fn string(name: Column) -> (column: ColumnDef)
    ensures
        column == required(name, ColumnType::String),
{
    ColumnDef::required(name, ColumnType::String)
}

/// A date-time column that takes no null.
pub fn date_time(name: Column) -> (column: ColumnDef)
    ensures
        column == required(name, ColumnType::DateTime),
{
    ColumnDef::required(name, ColumnType::DateTime)
}

/// One change to the schema. A change that creates or adds may be told to
/// do nothing where the table or column exists, and one that drops to do
/// nothing where it does not.
#[derive(Debug)]
#[allow(inconsistent_fields)]
pub enum Change {
    CreateTable { table: Table, if_not_exists: bool, columns: Vec<ColumnDef> },
    DropTable { table: Table, if_exists: bool },
    AddColumn { table: Table, if_not_exists: bool, column: ColumnDef },
    DropColumn { table: Table, if_exists: bool, column: Column },
}

#[allow(inconsistent_fields)]
pub enum ChangeView {
    CreateTable { table: Table, if_not_exists: bool, columns: Seq<ColumnDef> },
    DropTable { table: Table, if_exists: bool },
    AddColumn { table: Table, if_not_exists: bool, column: ColumnDef },
    DropColumn { table: Table, if_exists: bool, column: Column },
}

impl View for Change {
    type V = ChangeView;

    open spec fn view(&self) -> ChangeView {
        match self {
            Change::CreateTable { table, if_not_exists, columns } => ChangeView::CreateTable {
                table: *table,
                if_not_exists: *if_not_exists,
                columns: columns@,
            },
            Change::DropTable { table, if_exists } => ChangeView::DropTable {
                table: *table,
                if_exists: *if_exists,
            },
            Change::AddColumn { table, if_not_exists, column } => ChangeView::AddColumn {
                table: *table,
                if_not_exists: *if_not_exists,
                column: *column,
            },
            Change::DropColumn { table, if_exists, column } => ChangeView::DropColumn {
                table: *table,
                if_exists: *if_exists,
                column: *column,
            },
        }
    }
}

/// The views of a list of changes.
pub open spec fn changes_view(changes: Seq<Change>) -> Seq<ChangeView> {
    changes.map_values(|change: Change| change@)
}

/// Why the database refuses a change.
#[derive(Clone, Copy, Debug, PartialEq, Eq, Structural)]
pub enum SchemaError {
    TableExists(Table),
    NoSuchTable(Table),
    ColumnExists(Table, Column),
    NoSuchColumn(Table, Column),
}

/// The names of columns, in the columns' order.
pub open spec fn column_names(columns: Seq<ColumnDef>) -> Seq<Column> {
    columns.map_values(|column: ColumnDef| column.name)
}

/// The columns other than `name`, in order.
pub open spec fn without(columns: Seq<ColumnDef>, name: Column) -> Seq<ColumnDef> {
    columns.filter(|column: ColumnDef| column.name != name)
}

/// A schema: the columns of each table that exists.
pub type SchemaView = Map<Table, Seq<ColumnDef>>;

/// What a change makes of a schema, or why the database refuses it. A
/// refused change leaves the schema as it was.
pub open spec fn changed(schema: SchemaView, change: ChangeView) -> Result<
    SchemaView,
    SchemaError,
> {
    match change {
        ChangeView::CreateTable { table, if_not_exists, columns } => {
            if !schema.dom().contains(table) {
                Ok(schema.insert(table, columns))
            } else if if_not_exists {
                Ok(schema)
            } else {
                Err(SchemaError::TableExists(table))
            }
        },
        ChangeView::DropTable { table, if_exists } => {
            if schema.dom().contains(table) {
                Ok(schema.remove(table))
            } else if if_exists {
                Ok(schema)
            } else {
                Err(SchemaError::NoSuchTable(table))
            }
        },
        ChangeView::AddColumn { table, if_not_exists, column } => {
            if !schema.dom().contains(table) {
                Err(SchemaError::NoSuchTable(table))
            } else if !column_names(schema[table]).contains(column.name) {
                Ok(schema.insert(table, schema[table].push(column)))
            } else if if_not_exists {
                Ok(schema)
            } else {
                Err(SchemaError::ColumnExists(table, column.name))
            }
        },
        ChangeView::DropColumn { table, if_exists, column } => {
            if !schema.dom().contains(table) {
                Err(SchemaError::NoSuchTable(table))
            } else if column_names(schema[table]).contains(column) {
                Ok(schema.insert(table, without(schema[table], column)))
            } else if if_exists {
                Ok(schema)
            } else {
                Err(SchemaError::NoSuchColumn(table, column))
            }
        },
    }
}

/// What a list of changes makes of a schema when each is applied in turn.
/// The first refusal refuses the list.
pub open spec fn changed_by_all(schema: SchemaView, changes: Seq<ChangeView>) -> Result<
    SchemaView,
    SchemaError,
>
    decreases changes.len(),
{
    if changes.len() == 0 {
        Ok(schema)
    } else {
        match changed(schema, changes[0]) {
            Ok(next) => changed_by_all(next, changes.drop_first()),
            Err(e) => Err(e),
        }
    }
}

/// A list of one change does what the change does.
pub proof fn lemma_changed_by_one(schema: SchemaView, change: ChangeView)
    ensures
        changed_by_all(schema, seq![change]) == changed(schema, change),
{
    reveal_with_fuel(changed_by_all, 2);
    assert(seq![change].drop_first() =~= Seq::<ChangeView>::empty());
}

/// A list of changes does what its first change does, and then what the
/// rest does.
pub proof fn lemma_changed_by_first(schema: SchemaView, first: ChangeView, rest: Seq<ChangeView>)
    ensures
        changed_by_all(schema, seq![first] + rest) == match changed(schema, first) {
            Ok(next) => changed_by_all(next, rest),
            Err(e) => Err(e),
        },
{
    assert((seq![first] + rest).drop_first() =~= rest);
}

/// Taking a column out takes its name out and no other.
pub proof fn lemma_names_without(columns: Seq<ColumnDef>, gone: Column, name: Column)
    ensures
        column_names(without(columns, gone)).contains(name) <==> (name != gone && column_names(
            columns,
        ).contains(name)),
{
    let keep = |column: ColumnDef| column.name != gone;
    let rest = without(columns, gone);
    if column_names(rest).contains(name) {
        let i = choose|i: int| 0 <= i < rest.len() && column_names(rest)[i] == name;
        columns.lemma_filter_pred(keep, i);
        assert(rest.contains(rest[i]));
        columns.lemma_filter_contains_rev(keep, rest[i]);
        let j = choose|j: int| 0 <= j < columns.len() && columns[j] == rest[i];
        assert(column_names(columns)[j] == name);
    }
    if name != gone && column_names(columns).contains(name) {
        let j = choose|j: int| 0 <= j < columns.len() && column_names(columns)[j] == name;
        columns.lemma_filter_contains(keep, j);
        let i = choose|i: int| 0 <= i < rest.len() && rest[i] == columns[j];
        assert(column_names(rest)[i] == name);
    }
}

/// The columns after `name` is dropped if it is there.
pub open spec fn dropped(columns: Seq<ColumnDef>, name: Column) -> Seq<ColumnDef> {
    if column_names(columns).contains(name) {
        without(columns, name)
    } else {
        columns
    }
}

/// The columns after `column` is added unless one of its name is there.
pub open spec fn added(columns: Seq<ColumnDef>, column: ColumnDef) -> Seq<ColumnDef> {
    if column_names(columns).contains(column.name) {
        columns
    } else {
        columns.push(column)
    }
}

/// Dropping a column if it is there takes its name out and no other.
pub proof fn lemma_names_dropped(columns: Seq<ColumnDef>, gone: Column, name: Column)
    ensures
        column_names(dropped(columns, gone)).contains(name) <==> (name != gone && column_names(
            columns,
        ).contains(name)),
{
    lemma_names_without(columns, gone, name);
}

/// Adding a column unless it is there brings its name in and no other.
pub proof fn lemma_names_added(columns: Seq<ColumnDef>, column: ColumnDef, name: Column)
    ensures
        column_names(added(columns, column)).contains(name) <==> (name == column.name
            || column_names(columns).contains(name)),
{
    let more = columns.push(column);
    assert(column_names(more)[columns.len() as int] == column.name);
    if column_names(more).contains(name) {
        let i = choose|i: int| 0 <= i < more.len() && column_names(more)[i] == name;
        if i < columns.len() {
            assert(column_names(columns)[i] == name);
        }
    }
    if column_names(columns).contains(name) {
        let i = choose|i: int| 0 <= i < columns.len() && column_names(columns)[i] == name;
        assert(column_names(more)[i] == name);
    }
}

/// What dropping a column if it is there makes of a schema with the table.
pub proof fn lemma_changed_by_drop(schema: SchemaView, table: Table, column: Column)
    requires
        schema.dom().contains(table),
    ensures
        changed(schema, ChangeView::DropColumn { table, if_exists: true, column }) == Ok::<
            SchemaView,
            SchemaError,
        >(schema.insert(table, dropped(schema[table], column))),
{
    assert(schema.insert(table, schema[table]) =~= schema);
}

/// What adding a column unless it is there makes of a schema with the
/// table.
pub proof fn lemma_changed_by_add(schema: SchemaView, table: Table, column: ColumnDef)
    requires
        schema.dom().contains(table),
    ensures
        changed(schema, ChangeView::AddColumn { table, if_not_exists: true, column }) == Ok::<
            SchemaView,
            SchemaError,
        >(schema.insert(table, added(schema[table], column))),
{
    assert(schema.insert(table, schema[table]) =~= schema);
}

/// A model of a database schema.
pub struct Schema {
    user_email: Option<Vec<ColumnDef>>,
    user_password: Option<Vec<ColumnDef>>,
}

pub open spec fn slot_view(slot: Option<Vec<ColumnDef>>) -> Option<Seq<ColumnDef>> {
    match slot {
        Some(columns) => Some(columns@),
        None => None,
    }
}

/// The schema in which the two tables are as the slots say.
pub open spec fn schema_of(
    user_email: Option<Seq<ColumnDef>>,
    user_password: Option<Seq<ColumnDef>>,
) -> SchemaView {
    Map::new(
        |table: Table|
            match table {
                Table::UserEmail => user_email is Some,
                Table::UserPassword => user_password is Some,
            },
        |table: Table|
            match table {
                Table::UserEmail => user_email->Some_0,
                Table::UserPassword => user_password->Some_0,
            },
    )
}

impl View for Schema {
    type V = SchemaView;

    closed spec fn view(&self) -> SchemaView {
        schema_of(slot_view(self.user_email), slot_view(self.user_password))
    }
}

fn copy_columns(columns: &Vec<ColumnDef>) -> (copy: Vec<ColumnDef>)
    ensures
        copy@ == columns@,
{
    let mut copy: Vec<ColumnDef> = Vec::new();
    let mut i: usize = 0;
    while i < columns.len()
        invariant
            i <= columns@.len(),
            copy@ == columns@.take(i as int),
        decreases columns@.len() - i,
    {
        copy.push(columns[i]);
        i = i + 1;
        assert(copy@ =~= columns@.take(i as int));
    }
    assert(columns@.take(columns@.len() as int) =~= columns@);
    copy
}

fn copy_slot(slot: &Option<Vec<ColumnDef>>) -> (copy: Option<Vec<ColumnDef>>)
    ensures
        slot_view(copy) == slot_view(*slot),
{
    match slot {
        Some(columns) => Some(copy_columns(columns)),
        None => None,
    }
}

fn holds_column(columns: &Vec<ColumnDef>, name: Column) -> (found: bool)
    ensures
        found == column_names(columns@).contains(name),
{
    let ghost all = column_names(columns@);
    let mut i: usize = 0;
    while i < columns.len()
        invariant
            i <= columns@.len(),
            all == column_names(columns@),
            forall|j: int| 0 <= j < i ==> #[trigger] all[j] != name,
        decreases columns@.len() - i,
    {
        if columns[i].name == name {
            assert(all[i as int] == name);
            return true;
        }
        i = i + 1;
    }
    false
}

fn columns_without(columns: &Vec<ColumnDef>, name: Column) -> (rest: Vec<ColumnDef>)
    ensures
        rest@ == without(columns@, name),
{
    let ghost keep = |column: ColumnDef| column.name != name;
    let mut rest: Vec<ColumnDef> = Vec::new();
    let mut i: usize = 0;
    proof {
        reveal(Seq::filter);
    }
    assert(columns@.take(0).filter(keep) =~= Seq::<ColumnDef>::empty());
    while i < columns.len()
        invariant
            i <= columns@.len(),
            keep == |column: ColumnDef| column.name != name,
            rest@ == columns@.take(i as int).filter(keep),
        decreases columns@.len() - i,
    {
        proof {
            reveal(Seq::filter);
        }
        assert(columns@.take(i + 1).drop_last() =~= columns@.take(i as int));
        if columns[i].name != name {
            rest.push(columns[i]);
        }
        i = i + 1;
    }
    assert(columns@.take(columns@.len() as int) =~= columns@);
    rest
}

impl Schema {
    /// The schema without tables.
    pub fn new() -> (schema: Schema)
        ensures
            schema@ == Map::<Table, Seq<ColumnDef>>::empty(),
    {
        let schema = Schema { user_email: None, user_password: None };
        assert(schema@ =~= Map::<Table, Seq<ColumnDef>>::empty());
        schema
    }

    /// A copy of the schema.
    pub fn duplicate(&self) -> (copy: Schema)
        ensures
            copy@ == self@,
    {
        Schema {
            user_email: copy_slot(&self.user_email),
            user_password: copy_slot(&self.user_password),
        }
    }

    fn slot(&self, table: Table) -> (slot: &Option<Vec<ColumnDef>>)
        ensures
            self@.dom().contains(table) == (*slot is Some),
            *slot is Some ==> self@[table] == slot->Some_0@,
    {
        match table {
            Table::UserEmail => &self.user_email,
            Table::UserPassword => &self.user_password,
        }
    }

    fn put(&mut self, table: Table, slot: Option<Vec<ColumnDef>>)
        ensures
            final(self)@ == match slot {
                Some(columns) => old(self)@.insert(table, columns@),
                None => old(self)@.remove(table),
            },
    {
        match table {
            Table::UserEmail => {
                self.user_email = slot;
            },
            Table::UserPassword => {
                self.user_password = slot;
            },
        }
        assert(self@ =~= match slot {
            Some(columns) => old(self)@.insert(table, columns@),
            None => old(self)@.remove(table),
        });
    }

    /// Whether the table exists.
    pub fn has_table(&self, table: Table) -> (found: bool)
        ensures
            found == self@.dom().contains(table),
    {
        self.slot(table).is_some()
    }

    /// The table's columns, if it exists.
    pub fn columns(&self, table: Table) -> (columns: Option<Vec<ColumnDef>>)
        ensures
            slot_view(columns) == (if self@.dom().contains(table) {
                Some(self@[table])
            } else {
                None
            }),
    {
        copy_slot(self.slot(table))
    }

    /// Applies one change, or refuses it and changes nothing.
    pub fn apply(&mut self, change: &Change) -> (r: Result<(), SchemaError>)
        ensures
            match r {
                Ok(()) => changed(old(self)@, change@) == Ok::<SchemaView, SchemaError>(
                    final(self)@,
                ),
                Err(e) => changed(old(self)@, change@) == Err::<SchemaView, SchemaError>(e)
                    && final(self)@ == old(self)@,
            },
    {
        match change {
            Change::CreateTable { table, if_not_exists, columns } => {
                if !self.has_table(*table) {
                    self.put(*table, Some(copy_columns(columns)));
                    Ok(())
                } else if *if_not_exists {
                    Ok(())
                } else {
                    Err(SchemaError::TableExists(*table))
                }
            },
            Change::DropTable { table, if_exists } => {
                if self.has_table(*table) {
                    self.put(*table, None);
                    Ok(())
                } else if *if_exists {
                    Ok(())
                } else {
                    Err(SchemaError::NoSuchTable(*table))
                }
            },
            Change::AddColumn { table, if_not_exists, column } => {
                match self.slot(*table) {
                    None => Err(SchemaError::NoSuchTable(*table)),
                    Some(columns) => {
                        if !holds_column(columns, column.name) {
                            let mut extended = copy_columns(columns);
                            extended.push(*column);
                            self.put(*table, Some(extended));
                            Ok(())
                        } else if *if_not_exists {
                            Ok(())
                        } else {
                            Err(SchemaError::ColumnExists(*table, column.name))
                        }
                    },
                }
            },
            Change::DropColumn { table, if_exists, column } => {
                match self.slot(*table) {
                    None => Err(SchemaError::NoSuchTable(*table)),
                    Some(columns) => {
                        if holds_column(columns, *column) {
                            let rest = columns_without(columns, *column);
                            self.put(*table, Some(rest));
                            Ok(())
                        } else if *if_exists {
                            Ok(())
                        } else {
                            Err(SchemaError::NoSuchColumn(*table, *column))
                        }
                    },
                }
            },
        }
    }

    /// Applies the changes in turn, all or none: the first refusal leaves
    /// the schema as it was before the first change.
    pub fn apply_all(&mut self, changes: &Vec<Change>) -> (r: Result<(), SchemaError>)
        ensures
            match r {
                Ok(()) => changed_by_all(old(self)@, changes_view(changes@)) == Ok::<
                    SchemaView,
                    SchemaError,
                >(final(self)@),
                Err(e) => changed_by_all(old(self)@, changes_view(changes@)) == Err::<
                    SchemaView,
                    SchemaError,
                >(e) && final(self)@ == old(self)@,
            },
    {
        let ghost all = changes_view(changes@);
        let mut work = self.duplicate();
        let mut i: usize = 0;
        assert(all.skip(0) =~= all);
        while i < changes.len()
            invariant
                i <= changes@.len(),
                all == changes_view(changes@),
                self@ == old(self)@,
                changed_by_all(old(self)@, all) == changed_by_all(work@, all.skip(i as int)),
            decreases changes@.len() - i,
        {
            assert(all.skip(i as int)[0] == changes@[i as int]@);
            assert(all.skip(i as int).drop_first() =~= all.skip(i + 1));
            match work.apply(&changes[i]) {
                Ok(()) => {},
                Err(e) => {
                    return Err(e);
                },
            }
            i = i + 1;
        }
        *self = work;
        Ok(())
    }
}

} // verus!
