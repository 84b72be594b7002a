//! Results as the protocol shows them: columns, and rows of text.

use crate::auth::{qr_verify_column_names, qr_verify_columns, QrVerifyResult, QrVerifyResultView};
use crate::number::{decimal, decimal_text};
use crate::schema::{
    plain_column, text_column, Column, ColumnView, TableSchema, TableSchemaView, UserRecord,
    UserRecordView,
};
use vstd::prelude::*;
use vstd::string::*;

verus! {

/// The version that the server reports of itself.
pub const VERSION: &'static str = "8.0.36-mini-mysql-redis";

/// The columns of a result and its rows, each row with one text for each
/// column.
#[derive(Clone, Debug)]
pub struct ResultSet {
    pub columns: Vec<Column>,
    pub rows: Vec<Vec<String>>,
}

/// The mathematical value of a [`ResultSet`].
pub ghost struct ResultSetView {
    pub columns: Seq<ColumnView>,
    pub rows: Seq<Seq<Seq<char>>>,
}

impl View for ResultSet {
    type V = ResultSetView;

    open spec fn view(&self) -> ResultSetView {
        ResultSetView { columns: self.columns.deep_view(), rows: self.rows.deep_view() }
    }
}

/// What a client is sent for a query.
#[derive(Clone, Debug)]
pub enum Response {
    /// An acknowledgement, without columns or rows.
    Ack,
    /// Columns and rows.
    Rows(ResultSet),
}

/// The mathematical value of a [`Response`].
pub ghost enum ResponseView {
    Ack,
    Rows(ResultSetView),
}

impl View for Response {
    type V = ResponseView;

    open spec fn view(&self) -> ResponseView {
        match self {
            Response::Ack => ResponseView::Ack,
            Response::Rows(result) => ResponseView::Rows(result@),
        }
    }
}

impl ResponseView {
    /// The number of rows that the client is sent.
    pub open spec fn row_count(self) -> nat {
        match self {
            ResponseView::Ack => 0,
            ResponseView::Rows(result) => result.rows.len(),
        }
    }
}

/// The answer to a version probe: one column, and one row with the version.
pub open spec fn version_rows() -> ResultSetView {
    ResultSetView { columns: seq![plain_column("@@version"@)], rows: seq![seq![VERSION@]] }
}

/// The list of the tables `names`: one column, and one row for each name.
pub open spec fn table_rows(names: Seq<Seq<char>>) -> ResultSetView {
    ResultSetView {
        columns: seq![plain_column("Tables_in_db"@)],
        rows: Seq::new(names.len(), |i: int| seq![names[i]]),
    }
}

/// The description of a table: the columns field, type and key; a row for
/// the primary key, marked `PRI`, and a row for each field as declared.
pub open spec fn description(schema: TableSchemaView) -> ResultSetView {
    ResultSetView {
        columns: seq![plain_column("Field"@), plain_column("Type"@), plain_column("Key"@)],
        rows: seq![seq![schema.pk_field, "varchar(255)"@, "PRI"@]] + Seq::new(
            schema.fields.len(),
            |i: int| seq![schema.fields[i].0, schema.fields[i].1.described(), Seq::empty()],
        ),
    }
}

/// The row of a user's record: the primary key as it was asked for, then
/// name, e-mail address, age (empty where the record has none) and the time
/// of creation.
pub open spec fn user_row(pk_value: Seq<char>, record: UserRecordView) -> Seq<Seq<char>> {
    seq![
        pk_value,
        record.name,
        record.email,
        match record.age {
            Some(age) => decimal(age as int),
            None => Seq::empty(),
        },
        record.created_at,
    ]
}

/// The text of a field that may be missing: empty where it is.
pub open spec fn text_or_empty(field: Option<Seq<char>>) -> Seq<char> {
    match field {
        Some(text) => text,
        None => Seq::empty(),
    }
}

/// The columns in which the outcome of a verification is reported.
pub open spec fn verification_columns() -> Seq<ColumnView> {
    Seq::new(
        qr_verify_column_names().len(),
        |i: int| plain_column(qr_verify_column_names()[i].0),
    )
}

/// The report of the outcome of a verification: one row where the token
/// was verified, none where it was not.
pub open spec fn verification_rows(result: QrVerifyResultView) -> ResultSetView {
    ResultSetView {
        columns: verification_columns(),
        rows: if result.verified {
            seq![
                seq![
                    "1"@,
                    text_or_empty(result.user_id),
                    text_or_empty(result.facility),
                    text_or_empty(result.verified_at),
                    text_or_empty(result.data),
                ],
            ]
        } else {
            Seq::empty()
        },
    }
}

/// The answer to a version probe.
pub fn version_result() -> (result: ResultSet)
    ensures
        result@ == version_rows(),
{
    let mut columns: Vec<Column> = Vec::new();
    columns.push(text_column("@@version"));
    let mut row: Vec<String> = Vec::new();
    row.push(VERSION.to_owned());
    let mut rows: Vec<Vec<String>> = Vec::new();
    rows.push(row);
    let result = ResultSet { columns, rows };
    assert(result@.columns =~= version_rows().columns);
    assert(result@.rows[0] =~= version_rows().rows[0]);
    assert(result@.rows =~= version_rows().rows);
    result
}

/// The list of the tables `schemas`.
pub fn tables_result(schemas: &Vec<TableSchema>) -> (result: ResultSet)
    ensures
        result@ == table_rows(Seq::new(schemas.len() as nat, |i: int| schemas@[i]@.name)),
{
    let ghost names = Seq::new(schemas.len() as nat, |i: int| schemas@[i]@.name);
    let mut columns: Vec<Column> = Vec::new();
    columns.push(text_column("Tables_in_db"));
    let mut rows: Vec<Vec<String>> = Vec::new();
    let mut i: usize = 0;
    while i < schemas.len()
        invariant
            i <= schemas.len(),
            rows.len() == i,
            names == Seq::new(schemas.len() as nat, |i: int| schemas@[i]@.name),
            forall|j: int| 0 <= j < i ==> (#[trigger] rows@[j]).deep_view() == seq![names[j]],
        decreases schemas.len() - i,
    {
        let mut row: Vec<String> = Vec::new();
        row.push(schemas[i].name.clone());
        assert(row.deep_view() =~= seq![names[i as int]]);
        rows.push(row);
        i += 1;
    }
    let result = ResultSet { columns, rows };
    assert(result@.columns =~= table_rows(names).columns);
    assert(result@.rows =~= table_rows(names).rows);
    result
}

/// The description of the table `schema`.
pub fn describe_result(schema: &TableSchema) -> (result: ResultSet)
    ensures
        result@ == description(schema@),
{
    let mut columns: Vec<Column> = Vec::new();
    columns.push(text_column("Field"));
    columns.push(text_column("Type"));
    columns.push(text_column("Key"));
    let mut rows: Vec<Vec<String>> = Vec::new();
    let mut first: Vec<String> = Vec::new();
    first.push(schema.pk_field.clone());
    first.push("varchar(255)".to_owned());
    first.push("PRI".to_owned());
    assert(first.deep_view() =~= description(schema@).rows[0]);
    rows.push(first);
    let mut i: usize = 0;
    while i < schema.fields.len()
        invariant
            i <= schema.fields.len(),
            rows.len() == i + 1,
            forall|j: int|
                0 <= j < rows.len() ==> (#[trigger] rows@[j]).deep_view() == description(
                    schema@,
                ).rows[j],
        decreases schema.fields.len() - i,
    {
        let field = &schema.fields[i];
        let mut row: Vec<String> = Vec::new();
        row.push(field.0.clone());
        row.push(field.1.describe().to_owned());
        row.push(String::new());
        assert(row.deep_view() =~= description(schema@).rows[i + 1]);
        rows.push(row);
        i += 1;
    }
    let result = ResultSet { columns, rows };
    assert(result@.columns =~= description(schema@).columns);
    assert(result@.rows =~= description(schema@).rows);
    result
}

/// The row of the user's record `record`, asked for under the primary key
/// `pk_value`.
pub fn record_row(pk_value: &str, record: &UserRecord) -> (row: Vec<String>)
    ensures
        row.deep_view() == user_row(pk_value@, record@),
{
    let mut row: Vec<String> = Vec::new();
    row.push(pk_value.to_owned());
    row.push(record.name.clone());
    row.push(record.email.clone());
    row.push(
        match record.age {
            Some(age) => decimal_text(age),
            None => String::new(),
        },
    );
    row.push(record.created_at.clone());
    assert(row.deep_view() =~= user_row(pk_value@, record@));
    row
}

/// The text of a field that may be missing.
pub fn owned_or_empty(field: &Option<String>) -> (text: String)
    ensures
        text@ == text_or_empty(field.deep_view()),
{
    match field {
        Some(text) => text.clone(),
        None => String::new(),
    }
}

/// The report of the outcome `outcome` of a verification.
pub fn verification_result(outcome: &QrVerifyResult) -> (result: ResultSet)
    ensures
        result@ == verification_rows(outcome@),
{
    let names = qr_verify_columns();
    let mut columns: Vec<Column> = Vec::new();
    let mut i: usize = 0;
    while i < names.len()
        invariant
            i <= names.len(),
            columns.len() == i,
            names.deep_view() == qr_verify_column_names(),
            forall|j: int| 0 <= j < i ==> (#[trigger] columns@[j])@ == verification_columns()[j],
        decreases names.len() - i,
    {
        let column = text_column(names[i].0);
        assert(names.deep_view()[i as int].0 == names@[i as int].0@);
        columns.push(column);
        i += 1;
    }
    let mut rows: Vec<Vec<String>> = Vec::new();
    if outcome.verified {
        let mut row: Vec<String> = Vec::new();
        row.push("1".to_owned());
        row.push(owned_or_empty(&outcome.user_id));
        row.push(owned_or_empty(&outcome.facility));
        row.push(owned_or_empty(&outcome.verified_at));
        row.push(owned_or_empty(&outcome.data));
        assert(row.deep_view() =~= verification_rows(outcome@).rows[0]);
        rows.push(row);
    }
    let result = ResultSet { columns, rows };
    assert(result@.columns =~= verification_rows(outcome@).columns);
    assert(result@.rows =~= verification_rows(outcome@).rows);
    result
}

} // verus!
