use schemaconv::postgres::{IntrospectionError, NormalizeError, PgColumn, PostgresDriver};
use schemaconv::table::{Column, DataType, Table};

fn row(name: &str, ordinal: i32, is_nullable: &str, data_type: &str, udt_name: &str) -> PgColumn {
    PgColumn {
        table_catalog: "db".to_string(),
        table_schema: "public".to_string(),
        table_name: "mytable".to_string(),
        column_name: name.to_string(),
        ordinal_position: ordinal,
        is_nullable: is_nullable.to_string(),
        data_type: data_type.to_string(),
        udt_schema: "pg_catalog".to_string(),
        udt_name: udt_name.to_string(),
    }
}

#[test]
fn nullability_decoding() {
    let rows = vec![
        row("a", 1, "YES", "bigint", "int8"),
        row("b", 2, "NO", "text", "text"),
    ];
    let table = PostgresDriver::table_from_rows("mytable", rows).unwrap();
    assert_eq!(table.columns[0].is_nullable, true);
    assert_eq!(table.columns[1].is_nullable, false);

    let bad = vec![row("a", 1, "MAYBE", "bigint", "int8")];
    assert_eq!(
        PostgresDriver::table_from_rows("mytable", bad),
        Err(IntrospectionError::InvalidNullabilityEncoding {
            column: "a".to_string(),
            value: "MAYBE".to_string(),
        }),
    );
}

#[test]
fn normalization_errors_carry_the_column_name() {
    let rows = vec![
        row("a", 1, "YES", "bigint", "int8"),
        row("strange", 2, "NO", "interval", "interval"),
    ];
    assert_eq!(
        PostgresDriver::table_from_rows("mytable", rows),
        Err(IntrospectionError::Normalization {
            column: "strange".to_string(),
            error: NormalizeError::UnrecognizedDataType("interval".to_string()),
        }),
    );
}

#[test]
fn columns_follow_ordinal_order() {
    let rows = vec![
        row("third", 3, "NO", "text", "text"),
        row("first", 1, "YES", "bigint", "int8"),
        row("second", 2, "NO", "boolean", "bool"),
    ];
    let table = PostgresDriver::table_from_rows("mytable", rows).unwrap();
    let names: Vec<&str> = table.columns.iter().map(|c| c.name.as_str()).collect();
    assert_eq!(names, vec!["first", "second", "third"]);
    assert_eq!(table.columns[0].data_type, DataType::Bigint);
    assert_eq!(table.columns[1].data_type, DataType::Boolean);
    assert_eq!(table.columns[2].data_type, DataType::Text);
}

#[test]
fn empty_table_is_not_an_error() {
    let table = PostgresDriver::table_from_rows("mytable", Vec::new()).unwrap();
    assert_eq!(table.name, "mytable");
    assert!(table.columns.is_empty());
}

#[test]
fn assembled_columns_carry_no_comment() {
    let rows = vec![row("a", 1, "YES", "uuid", "uuid")];
    let table = PostgresDriver::table_from_rows("mytable", rows).unwrap();
    assert_eq!(
        table.columns[0],
        Column {
            name: "a".to_string(),
            data_type: DataType::Uuid,
            is_nullable: true,
            comment: None,
        },
    );
}

#[test]
fn select_args_are_quoted_and_ordered() {
    let columns = vec![
        Column {
            name: "id".to_string(),
            data_type: DataType::Bigint,
            is_nullable: false,
            comment: None,
        },
        Column {
            name: "user name".to_string(),
            data_type: DataType::Text,
            is_nullable: true,
            comment: None,
        },
        Column {
            name: "x\"y".to_string(),
            data_type: DataType::Text,
            is_nullable: true,
            comment: None,
        },
    ];
    let table = Table {
        name: "mytable".to_string(),
        columns,
    };
    let mut out = String::new();
    PostgresDriver::write_select_args(&mut out, &table);
    assert_eq!(out, "\"id\",\"user name\",\"x\"\"y\"");
}

#[test]
fn select_args_pass_backslashes_through() {
    let table = Table {
        name: "t".to_string(),
        columns: vec![Column {
            name: "a\\b".to_string(),
            data_type: DataType::Text,
            is_nullable: false,
            comment: None,
        }],
    };
    let mut out = String::new();
    PostgresDriver::write_select_args(&mut out, &table);
    assert_eq!(out, "\"a\\b\"");
}

#[test]
fn select_args_of_no_columns_are_empty() {
    let table = Table {
        name: "t".to_string(),
        columns: Vec::new(),
    };
    let mut out = String::new();
    PostgresDriver::write_select_args(&mut out, &table);
    assert_eq!(out, "");
}
