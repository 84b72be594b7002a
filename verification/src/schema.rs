//! The schema registry: which tables are exposed, what fields they have, and
//! under which keys their records are stored.

use crate::text::{begins_with, starts_with, substring, to_chars};
use vstd::prelude::*;
use vstd::string::*;

verus! {

/// The kind of value that a field holds.
#[derive(Clone, Copy, Debug, PartialEq, Eq)]
pub enum FieldType {
    Text,
    Integer,
    DateTime,
}

impl FieldType {
    /// The name under which a table's description lists the type.
    pub open spec fn described(self) -> Seq<char> {
        match self {
            FieldType::Text => "varchar(255)"@,
            FieldType::Integer => "int"@,
            FieldType::DateTime => "datetime"@,
        }
    }

    /// The name under which a table's description lists the type.
    pub fn describe(self) -> (name: &'static str)
        ensures
            name@ == self.described(),
    {
        match self {
            FieldType::Text => "varchar(255)",
            FieldType::Integer => "int",
            FieldType::DateTime => "datetime",
        }
    }
}

/// A column of a result.
#[derive(Clone, Debug, PartialEq, Eq)]
pub struct Column {
    /// The table that the column belongs to; empty where it belongs to none.
    pub table: String,
    /// The column's name.
    pub column: String,
    /// The kind of value in the column.
    pub coltype: FieldType,
    /// Whether the column is the table's primary key.
    pub primary_key: bool,
    /// Whether the column always has a value.
    pub not_null: bool,
}

/// The mathematical value of a [`Column`].
pub ghost struct ColumnView {
    pub table: Seq<char>,
    pub column: Seq<char>,
    pub coltype: FieldType,
    pub primary_key: bool,
    pub not_null: bool,
}

impl View for Column {
    type V = ColumnView;

    open spec fn view(&self) -> ColumnView {
        ColumnView {
            table: self.table@,
            column: self.column@,
            coltype: self.coltype,
            primary_key: self.primary_key,
            not_null: self.not_null,
        }
    }
}

impl DeepView for Column {
    type V = ColumnView;

    open spec fn deep_view(&self) -> ColumnView {
        self@
    }
}

/// A column of text that belongs to no table and carries no flag.
pub open spec fn plain_column(name: Seq<char>) -> ColumnView {
    ColumnView {
        table: Seq::empty(),
        column: name,
        coltype: FieldType::Text,
        primary_key: false,
        not_null: false,
    }
}

/// A column of text that belongs to no table and carries no flag.
pub fn text_column(name: &str) -> (column: Column)
    ensures
        column@ == plain_column(name@),
{
    Column {
        table: String::new(),
        column: name.to_owned(),
        coltype: FieldType::Text,
        primary_key: false,
        not_null: false,
    }
}

/// An exposed table: its name, its primary-key field, and its other fields
/// in order.
#[derive(Clone, Debug)]
pub struct TableSchema {
    pub name: String,
    pub pk_field: String,
    pub fields: Vec<(String, FieldType)>,
}

/// The mathematical value of a [`TableSchema`].
pub ghost struct TableSchemaView {
    pub name: Seq<char>,
    pub pk_field: Seq<char>,
    pub fields: Seq<(Seq<char>, FieldType)>,
}

impl TableSchemaView {
    /// The columns of the table's rows: the primary key first, flagged as
    /// primary and never null, then the fields as declared.
    pub open spec fn columns(self) -> Seq<ColumnView> {
        seq![
            ColumnView {
                table: self.name,
                column: self.pk_field,
                coltype: FieldType::Text,
                primary_key: true,
                not_null: true,
            },
        ] + Seq::new(
            self.fields.len(),
            |i: int|
                ColumnView {
                    table: self.name,
                    column: self.fields[i].0,
                    coltype: self.fields[i].1,
                    primary_key: false,
                    not_null: false,
                },
        )
    }
}

/// The key under which the record of `table` with the primary key
/// `pk_value` is stored: the table's name, a dot, and the value.
pub open spec fn record_key_of(table: Seq<char>, pk_value: Seq<char>) -> Seq<char> {
    table + seq!['.'] + pk_value
}

/// The pattern that the keys of the records of `table` match.
pub open spec fn scan_pattern_of(table: Seq<char>) -> Seq<char> {
    table + seq!['.', '*']
}

/// The primary key that the key `key` of a record of `table` holds: what
/// follows the table's name and a dot, or the whole key where it does not
/// begin with them.
pub open spec fn primary_key_of(key: Seq<char>, table: Seq<char>) -> Seq<char> {
    let prefix = table + seq!['.'];
    if starts_with(key, prefix) {
        key.skip(prefix.len() as int)
    } else {
        key
    }
}

impl View for TableSchema {
    type V = TableSchemaView;

    open spec fn view(&self) -> TableSchemaView {
        TableSchemaView {
            name: self.name@,
            pk_field: self.pk_field@,
            fields: Seq::new(self.fields@.len(), |i: int| (self.fields@[i].0@, self.fields@[i].1)),
        }
    }
}

impl DeepView for TableSchema {
    type V = TableSchemaView;

    open spec fn deep_view(&self) -> TableSchemaView {
        self@
    }
}

/// A record of the table of users, as it is stored.
#[derive(Clone, Debug)]
pub struct UserRecord {
    pub name: String,
    pub email: String,
    pub age: Option<i32>,
    pub created_at: String,
}

/// The mathematical value of a [`UserRecord`].
pub ghost struct UserRecordView {
    pub name: Seq<char>,
    pub email: Seq<char>,
    pub age: Option<i32>,
    pub created_at: Seq<char>,
}

impl View for UserRecord {
    type V = UserRecordView;

    open spec fn view(&self) -> UserRecordView {
        UserRecordView {
            name: self.name@,
            email: self.email@,
            age: self.age,
            created_at: self.created_at@,
        }
    }
}

impl DeepView for UserRecord {
    type V = UserRecordView;

    open spec fn deep_view(&self) -> UserRecordView {
        self@
    }
}

/// The table of users: the primary key `id`, and the fields name, e-mail
/// address, age and time of creation.
pub open spec fn users_table() -> TableSchemaView {
    TableSchemaView {
        name: "users"@,
        pk_field: "id"@,
        fields: seq![
            ("name"@, FieldType::Text),
            ("email"@, FieldType::Text),
            ("age"@, FieldType::Integer),
            ("created_at"@, FieldType::DateTime),
        ],
    }
}

impl TableSchema {
    /// The table of users.
    pub fn users() -> (schema: TableSchema)
        ensures
            schema@ == users_table(),
    {
        let mut fields: Vec<(String, FieldType)> = Vec::new();
        fields.push(("name".to_owned(), FieldType::Text));
        fields.push(("email".to_owned(), FieldType::Text));
        fields.push(("age".to_owned(), FieldType::Integer));
        fields.push(("created_at".to_owned(), FieldType::DateTime));
        let schema = TableSchema { name: "users".to_owned(), pk_field: "id".to_owned(), fields };
        assert(schema@.fields =~= users_table().fields);
        schema
    }

    /// The columns of the table's rows.
    pub fn columns(&self) -> (cols: Vec<Column>)
        ensures
            cols.deep_view() == self@.columns(),
    {
        let mut cols: Vec<Column> = Vec::new();
        cols.push(
            Column {
                table: self.name.clone(),
                column: self.pk_field.clone(),
                coltype: FieldType::Text,
                primary_key: true,
                not_null: true,
            },
        );
        let mut i: usize = 0;
        while i < self.fields.len()
            invariant
                i <= self.fields.len(),
                cols.len() == i + 1,
                forall|j: int| 0 <= j < cols.len() ==> (#[trigger] cols@[j])@ == self@.columns()[j],
            decreases self.fields.len() - i,
        {
            let field = &self.fields[i];
            cols.push(
                Column {
                    table: self.name.clone(),
                    column: field.0.clone(),
                    coltype: field.1,
                    primary_key: false,
                    not_null: false,
                },
            );
            i += 1;
        }
        assert(cols.deep_view() =~= self@.columns());
        cols
    }
}

/// The key under which the record of `table` with the primary key
/// `pk_value` is stored.
pub fn record_key(table: &str, pk_value: &str) -> (key: String)
    ensures
        key@ == record_key_of(table@, pk_value@),
{
    proof {
        reveal_strlit(".");
    }
    let key = table.to_owned().concat(".").concat(pk_value);
    assert(key@ =~= record_key_of(table@, pk_value@));
    key
}

/// The pattern that the keys of the records of `table` match.
pub fn scan_pattern(table: &str) -> (pattern: String)
    ensures
        pattern@ == scan_pattern_of(table@),
{
    proof {
        reveal_strlit(".*");
    }
    let pattern = table.to_owned().concat(".*");
    assert(pattern@ =~= scan_pattern_of(table@));
    pattern
}

/// The primary key that the key `key` of a record of `table` holds.
pub fn primary_key(key: &str, table: &str) -> (pk_value: String)
    ensures
        pk_value@ == primary_key_of(key@, table@),
{
    let mut prefix = to_chars(table);
    prefix.push('.');
    let chars = to_chars(key);
    assert(prefix@ =~= table@ + seq!['.']);
    if begins_with(chars.as_slice(), prefix.as_slice()) {
        let pk_value = substring(key, prefix.len(), chars.len());
        assert(pk_value@ =~= key@.skip(prefix.len() as int));
        pk_value
    } else {
        key.to_owned()
    }
}

} // verus!
