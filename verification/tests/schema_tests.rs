use mini_mysql_redis::number::{decimal_text, digit_text};
use mini_mysql_redis::result::{
    describe_result, record_row, tables_result, verification_result, version_result, VERSION,
};
use mini_mysql_redis::schema::{
    primary_key, record_key, scan_pattern, text_column, Column, FieldType, TableSchema, UserRecord,
};
use mini_mysql_redis::auth::{AuthToken, QrVerifyResult};

fn strings(items: &[&str]) -> Vec<String> {
    items.iter().map(|item| item.to_string()).collect()
}

fn plain(name: &str) -> Column {
    Column {
        table: String::new(),
        column: name.to_string(),
        coltype: FieldType::Text,
        primary_key: false,
        not_null: false,
    }
}

#[test]
fn users_schema() {
    let schema = TableSchema::users();
    assert_eq!(schema.name, "users");
    assert_eq!(schema.pk_field, "id");
    assert_eq!(
        schema.fields,
        vec![
            ("name".to_string(), FieldType::Text),
            ("email".to_string(), FieldType::Text),
            ("age".to_string(), FieldType::Integer),
            ("created_at".to_string(), FieldType::DateTime),
        ]
    );
}

#[test]
fn columns_put_the_primary_key_first() {
    let columns = TableSchema::users().columns();
    let field = |name: &str, coltype: FieldType| Column {
        table: "users".to_string(),
        column: name.to_string(),
        coltype,
        primary_key: false,
        not_null: false,
    };
    assert_eq!(
        columns,
        vec![
            Column {
                table: "users".to_string(),
                column: "id".to_string(),
                coltype: FieldType::Text,
                primary_key: true,
                not_null: true,
            },
            field("name", FieldType::Text),
            field("email", FieldType::Text),
            field("age", FieldType::Integer),
            field("created_at", FieldType::DateTime),
        ]
    );
}

#[test]
fn columns_of_a_table_without_fields() {
    let schema =
        TableSchema { name: "t".to_string(), pk_field: "k".to_string(), fields: Vec::new() };
    let columns = schema.columns();
    assert_eq!(columns.len(), 1);
    assert_eq!(columns[0].column, "k");
    assert!(columns[0].primary_key && columns[0].not_null);
}

#[test]
fn field_types_as_described() {
    assert_eq!(FieldType::Text.describe(), "varchar(255)");
    assert_eq!(FieldType::Integer.describe(), "int");
    assert_eq!(FieldType::DateTime.describe(), "datetime");
}

#[test]
fn text_column_is_plain() {
    assert_eq!(text_column("Field"), plain("Field"));
}

#[test]
fn key_naming() {
    assert_eq!(record_key("users", "u001"), "users.u001");
    assert_eq!(record_key("users", ""), "users.");
    assert_eq!(record_key("a.b", "c.d"), "a.b.c.d");
    assert_eq!(scan_pattern("users"), "users.*");
    assert_eq!(scan_pattern(""), ".*");
}

#[test]
fn primary_key_is_what_follows_the_table() {
    assert_eq!(primary_key("users.u001", "users"), "u001");
    assert_eq!(primary_key("users.a.b", "users"), "a.b");
    assert_eq!(primary_key("users.", "users"), "");
    assert_eq!(primary_key("orders.7", "users"), "orders.7");
    assert_eq!(primary_key("usersu001", "users"), "usersu001");
    assert_eq!(primary_key("user", "users"), "user");
    assert_eq!(primary_key("users.\u{e9}t\u{e9}", "users"), "\u{e9}t\u{e9}");
}

#[test]
fn decimal_text_values() {
    assert_eq!(decimal_text(0), "0");
    assert_eq!(decimal_text(7), "7");
    assert_eq!(decimal_text(10), "10");
    assert_eq!(decimal_text(42), "42");
    assert_eq!(decimal_text(1000), "1000");
    assert_eq!(decimal_text(-1), "-1");
    assert_eq!(decimal_text(-90), "-90");
    assert_eq!(decimal_text(i32::MAX), "2147483647");
    assert_eq!(decimal_text(i32::MIN), "-2147483648");
    for n in [-12345, -10, -9, 9, 99, 100, 101, 65535, 123456789] {
        assert_eq!(decimal_text(n), n.to_string());
    }
    assert_eq!(digit_text(0), "0");
    assert_eq!(digit_text(9), "9");
}

#[test]
fn version_result_has_one_row() {
    let result = version_result();
    assert_eq!(result.columns, vec![plain("@@version")]);
    assert_eq!(result.rows, vec![strings(&["8.0.36-mini-mysql-redis"])]);
    assert_eq!(VERSION, "8.0.36-mini-mysql-redis");
}

#[test]
fn tables_result_has_a_row_for_each_table() {
    let other =
        TableSchema { name: "orders".to_string(), pk_field: "id".to_string(), fields: Vec::new() };
    let result = tables_result(&vec![TableSchema::users(), other]);
    assert_eq!(result.columns, vec![plain("Tables_in_db")]);
    assert_eq!(result.rows, vec![strings(&["users"]), strings(&["orders"])]);
    assert!(tables_result(&Vec::new()).rows.is_empty());
}

#[test]
fn describe_result_of_users() {
    let result = describe_result(&TableSchema::users());
    assert_eq!(result.columns, vec![plain("Field"), plain("Type"), plain("Key")]);
    assert_eq!(
        result.rows,
        vec![
            strings(&["id", "varchar(255)", "PRI"]),
            strings(&["name", "varchar(255)", ""]),
            strings(&["email", "varchar(255)", ""]),
            strings(&["age", "int", ""]),
            strings(&["created_at", "datetime", ""]),
        ]
    );
}

#[test]
fn record_row_takes_the_key_as_asked() {
    let record = UserRecord {
        name: "Alice".to_string(),
        email: "alice@example.com".to_string(),
        age: Some(30),
        created_at: "2024-01-01 00:00:00".to_string(),
    };
    assert_eq!(
        record_row("u001", &record),
        strings(&["u001", "Alice", "alice@example.com", "30", "2024-01-01 00:00:00"])
    );
    let ageless = UserRecord { age: None, ..record.clone() };
    assert_eq!(
        record_row("", &ageless),
        strings(&["", "Alice", "alice@example.com", "", "2024-01-01 00:00:00"])
    );
    let negative = UserRecord { age: Some(-5), ..record };
    assert_eq!(record_row("k", &negative)[3], "-5");
}

#[test]
fn verification_result_has_a_row_only_when_verified() {
    let names: Vec<Column> =
        ["verified", "user_id", "facility", "verified_at", "data"].iter().map(|n| plain(n)).collect();
    let missing = verification_result(&QrVerifyResult::not_found());
    assert_eq!(missing.columns, names);
    assert!(missing.rows.is_empty());
    let token = AuthToken {
        user_id: "u001".to_string(),
        facility: "fac-tokyo".to_string(),
        data: None,
    };
    let found =
        verification_result(&QrVerifyResult::from_token(token, "2024-05-06 07:08:09".to_string()));
    assert_eq!(found.columns, names);
    assert_eq!(
        found.rows,
        vec![strings(&["1", "u001", "fac-tokyo", "2024-05-06 07:08:09", ""])]
    );
    let odd = QrVerifyResult {
        verified: true,
        user_id: None,
        facility: None,
        verified_at: None,
        data: Some("{}".to_string()),
    };
    assert_eq!(verification_result(&odd).rows, vec![strings(&["1", "", "", "", "{}"])]);
}
