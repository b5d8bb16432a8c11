use std::rc::Rc;

use sqlz::providers::postgresql::introspection::{
    apply_constraint_rows, apply_foreign_key_rows, tables_from_catalog, ColumnRow, ConstraintRow,
    ForeignKeyRow, TableCatalog,
};
use sqlz::providers::postgresql::lookup::build_column_lookup;
use sqlz::providers::postgresql::queries::{
    build_create_table_sql, build_read_rows_sql, build_write_rows_sql, native_column_types,
    qualified_name,
};
use sqlz::providers::postgresql::sql_text::{join, quote, to_decimal};
use sqlz::sqlz::{
    Column, ConstraintType, ContinueFrom, GenericType, PrimaryKeyConstraint, RowReadOptions,
    SqlzRow, SqlzValue, Table,
};

fn col(name: &str, col_type: GenericType, nullable: bool) -> Rc<Column> {
    Rc::new(Column {
        name: name.to_string(),
        col_type,
        native_type: "".to_string(),
        is_nullable: nullable,
        is_identity: false,
        max_length: None,
        numeric_precision: None,
        numeric_scale: None,
    })
}

fn column_row(name: &str, udt: &str) -> ColumnRow {
    ColumnRow {
        column_name: name.to_string(),
        data_type: "".to_string(),
        udt_name: udt.to_string(),
        character_maximum_length: None,
        numeric_precision: None,
        numeric_scale: None,
        is_nullable: "NO".to_string(),
        is_identity: "NO".to_string(),
    }
}

fn key_row(name: &str, kind: &str, column: &str) -> ConstraintRow {
    ConstraintRow {
        constraint_name: name.to_string(),
        constraint_type: kind.to_string(),
        column_name: column.to_string(),
    }
}

fn fk_row(name: &str, column: &str, table: &str, foreign_column: &str) -> ForeignKeyRow {
    ForeignKeyRow {
        constraint_name: name.to_string(),
        column_name: column.to_string(),
        foreign_table_schema: "public".to_string(),
        foreign_table_name: table.to_string(),
        foreign_column_name: foreign_column.to_string(),
        on_update: "NO ACTION".to_string(),
        on_delete: "CASCADE".to_string(),
    }
}

#[test]
fn catalog_builds_tables_with_keys_and_references() {
    let catalog = vec![
        TableCatalog {
            schema: "public".to_string(),
            name: "film".to_string(),
            columns: vec![column_row("film_id", "int4"), column_row("title", "text")],
            constraints: vec![key_row("film_pkey", "PRIMARY KEY", "film_id")],
            foreign_keys: vec![],
        },
        TableCatalog {
            schema: "public".to_string(),
            name: "rental".to_string(),
            columns: vec![column_row("rental_id", "int4"), column_row("film_id", "int4")],
            constraints: vec![
                key_row("rental_pkey", "PRIMARY KEY", "rental_id"),
                key_row("rental_pkey", "PRIMARY KEY", "film_id"),
            ],
            foreign_keys: vec![
                fk_row("rental_film_fkey", "film_id", "film", "film_id"),
                fk_row("rental_store_fkey", "film_id", "store", "store_id"),
            ],
        },
    ];
    let tables = tables_from_catalog(&catalog);
    assert_eq!(tables.len(), 2);
    assert_eq!(tables[0].name, "film");
    assert_eq!(tables[0].schema.as_deref(), Some("public"));
    assert_eq!(tables[0].columns[1].col_type, GenericType::Text);
    assert_eq!(tables[0].constraints.len(), 1);

    let rental = &tables[1];
    assert_eq!(rental.constraints.len(), 2);
    match &rental.constraints[0] {
        ConstraintType::PrimaryKey(pk) => {
            assert_eq!(pk.constraint_name, "rental_pkey");
            assert!(Rc::ptr_eq(&pk.columns[0], &rental.columns[0]));
            assert!(Rc::ptr_eq(&pk.columns[1], &rental.columns[1]));
        }
        _ => panic!("expected the primary key first"),
    }
    match &rental.constraints[1] {
        ConstraintType::ForeignKey { referenced_column, source_column, .. } => {
            assert!(Rc::ptr_eq(referenced_column, &tables[0].columns[0]));
            assert!(Rc::ptr_eq(source_column, &rental.columns[1]));
        }
        _ => panic!("expected a foreign key"),
    }
}

#[test]
fn rows_are_taken_in_order() {
    let films = Table {
        name: "film".to_string(),
        schema: Some("public".to_string()),
        columns: vec![col("film_id", GenericType::Integer, false)],
        constraints: vec![],
    };
    let mut t = Table {
        name: "t".to_string(),
        schema: Some("public".to_string()),
        columns: vec![col("a", GenericType::Integer, false), col("b", GenericType::Integer, false)],
        constraints: vec![],
    };
    apply_constraint_rows(
        &mut t,
        &vec![
            key_row("u", "UNIQUE", "b"),
            key_row("pk", "PRIMARY KEY", "b"),
            key_row("pk", "PRIMARY KEY", "a"),
        ],
    );
    let tables = vec![films];
    let lookup = build_column_lookup(&tables);
    apply_foreign_key_rows(
        &mut t,
        &vec![fk_row("f1", "a", "film", "film_id"), fk_row("f2", "b", "film", "film_id")],
        &lookup,
    );
    assert_eq!(t.constraints.len(), 4);
    match &t.constraints[1] {
        ConstraintType::PrimaryKey(pk) => {
            let names: Vec<&str> = pk.columns.iter().map(|c| c.name.as_str()).collect();
            assert_eq!(names, vec!["b", "a"]);
        }
        _ => panic!("expected the primary key"),
    }
    match (&t.constraints[2], &t.constraints[3]) {
        (
            ConstraintType::ForeignKey { constraint_name: n1, .. },
            ConstraintType::ForeignKey { constraint_name: n2, .. },
        ) => {
            assert_eq!(n1, "f1");
            assert_eq!(n2, "f2");
        }
        _ => panic!("expected two foreign keys"),
    }
}

#[test]
fn names_are_quoted_and_numbers_written() {
    assert_eq!(quote("film"), "\"film\"");
    assert_eq!(quote("a\"b"), "\"a\"\"b\"");
    assert_eq!(quote(""), "\"\"");
    assert_eq!(to_decimal(0), "0");
    assert_eq!(to_decimal(7), "7");
    assert_eq!(to_decimal(1234567890), "1234567890");
    assert_eq!(join(&vec![], ", "), "");
    assert_eq!(join(&vec!["a".to_string()], ", "), "a");
    assert_eq!(join(&vec!["a".to_string(), "b".to_string(), "c".to_string()], "-"), "a-b-c");
}

fn film_table() -> Table {
    Table {
        name: "film".to_string(),
        schema: Some("public".to_string()),
        columns: vec![
            col("film_id", GenericType::Integer, false),
            col("title", GenericType::VarChar(255), true),
            col("rating", GenericType::UserDefined("mpaa_rating".to_string()), true),
        ],
        constraints: vec![],
    }
}

#[test]
fn create_table_statement() {
    let t = film_table();
    assert_eq!(qualified_name(&t), "\"public\".\"film\"");
    let types = native_column_types(&t);
    assert_eq!(
        build_create_table_sql(&t, &types),
        "CREATE TABLE IF NOT EXISTS \"public\".\"film\" (\"film_id\" int4 NOT NULL, \"title\" varchar, \"rating\" text)"
    );
    let mut no_schema = film_table();
    no_schema.schema = None;
    no_schema.columns.truncate(1);
    assert_eq!(
        build_create_table_sql(&no_schema, &native_column_types(&no_schema)),
        "CREATE TABLE IF NOT EXISTS \"film\" (\"film_id\" int4 NOT NULL)"
    );
}

#[test]
fn read_rows_statement() {
    let t = film_table();
    let pk = PrimaryKeyConstraint {
        constraint_name: "film_pkey".to_string(),
        columns: vec![t.columns[0].clone()],
    };
    let first = RowReadOptions { batch_size: 100, continue_from: None };
    let (sql, params) = build_read_rows_sql(&t, &pk, &first);
    assert_eq!(sql, "SELECT * FROM \"public\".\"film\" ORDER BY \"film_id\" LIMIT 100");
    assert!(params.is_empty());

    let next = RowReadOptions {
        batch_size: 50,
        continue_from: Some(ContinueFrom::new(pk.clone(), vec![SqlzValue::Integer(7)])),
    };
    let (sql, params) = build_read_rows_sql(&t, &pk, &next);
    assert_eq!(
        sql,
        "SELECT * FROM \"public\".\"film\" WHERE (\"film_id\") > ($1) ORDER BY \"film_id\" LIMIT 50"
    );
    assert!(matches!(params.as_slice(), [SqlzValue::Integer(7)]));
}

#[test]
fn write_rows_statement() {
    let t = film_table();
    let rows = vec![
        SqlzRow {
            columns: vec!["film_id".to_string(), "title".to_string()],
            values: vec![SqlzValue::Integer(1), SqlzValue::Text("A".to_string())],
        },
        SqlzRow {
            columns: vec!["film_id".to_string(), "title".to_string()],
            values: vec![SqlzValue::Integer(2), SqlzValue::Null],
        },
    ];
    let (sql, params) = build_write_rows_sql(&t, &rows);
    assert_eq!(
        sql,
        "INSERT INTO \"public\".\"film\" (\"film_id\", \"title\") VALUES ($1, $2), ($3, $4)"
    );
    assert_eq!(params.len(), 4);
    assert!(matches!(params[0], SqlzValue::Integer(1)));
    assert!(matches!(&params[1], SqlzValue::Text(s) if s == "A"));
    assert!(matches!(params[2], SqlzValue::Integer(2)));
    assert!(matches!(params[3], SqlzValue::Null));
}
