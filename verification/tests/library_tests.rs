use std::rc::Rc;

use sqlz::providers::postgresql::helper::{
    map_fk_action, map_native_type_to_sqlz, map_sqlz_to_native_type,
};
use sqlz::providers::postgresql::introspection::{
    apply_constraint_row, apply_foreign_key_row, column_from_row, contains_table,
    table_from_column_rows, ColumnRow, ConstraintRow, ForeignKeyRow,
};
use sqlz::providers::postgresql::lookup::build_column_lookup;
use sqlz::providers::postgresql::pg_type::{catalog_name, PgType};
use sqlz::providers::postgresql::provider::{continue_from_batch, create_schema_sql};
use sqlz::sqlz::{
    Column, ConstraintType, ContinueFrom, ForeignKeyAction, GenericType, MigrationPlan,
    PrimaryKeyConstraint, RowReadOptions, SqlzError, SqlzRow, SqlzValue, Table,
};

fn column(name: &str, col_type: GenericType) -> Rc<Column> {
    Rc::new(Column {
        name: name.to_string(),
        col_type,
        native_type: "".to_string(),
        is_nullable: false,
        is_identity: false,
        max_length: None,
        numeric_precision: None,
        numeric_scale: None,
    })
}

fn table(name: &str, columns: Vec<Rc<Column>>) -> Table {
    Table {
        name: name.to_string(),
        schema: Some("public".to_string()),
        columns,
        constraints: vec![],
    }
}

fn column_row(name: &str, udt: &str, len: Option<i32>, p: Option<i32>, s: Option<i32>) -> ColumnRow {
    ColumnRow {
        column_name: name.to_string(),
        data_type: "".to_string(),
        udt_name: udt.to_string(),
        character_maximum_length: len,
        numeric_precision: p,
        numeric_scale: s,
        is_nullable: "YES".to_string(),
        is_identity: "NO".to_string(),
    }
}

fn constraint_row(name: &str, kind: &str, column: &str) -> ConstraintRow {
    ConstraintRow {
        constraint_name: name.to_string(),
        constraint_type: kind.to_string(),
        column_name: column.to_string(),
    }
}

#[test]
fn native_types_map_to_generic_types() {
    let cases = vec![
        ("int2", GenericType::SmallInt),
        ("int4", GenericType::Integer),
        ("int8", GenericType::BigInt),
        ("float4", GenericType::Float),
        ("float8", GenericType::Double),
        ("text", GenericType::Text),
        ("json", GenericType::Json),
        ("jsonb", GenericType::Json),
        ("bytea", GenericType::Blob(0)),
        ("bool", GenericType::Boolean),
        ("date", GenericType::Date),
        ("timestamp", GenericType::Timestamp),
        ("timestamptz", GenericType::TimestampTz),
        ("mpaa_rating", GenericType::UserDefined("mpaa_rating".to_string())),
        ("uuid", GenericType::UserDefined("uuid".to_string())),
    ];
    for (native, expected) in cases {
        assert_eq!(map_native_type_to_sqlz("", native, None, None, None), expected);
    }
}

#[test]
fn sized_native_types_take_their_size() {
    assert_eq!(
        map_native_type_to_sqlz("", "varchar", Some(25), None, None),
        GenericType::VarChar(25)
    );
    assert_eq!(map_native_type_to_sqlz("", "bpchar", Some(3), None, None), GenericType::Char(3));
    assert_eq!(map_native_type_to_sqlz("", "char", None, None, None), GenericType::Char(0));
    assert_eq!(
        map_native_type_to_sqlz("", "numeric", None, Some(10), Some(2)),
        GenericType::Decimal { precision: 10, scale: 2 }
    );
    assert_eq!(
        map_native_type_to_sqlz("", "decimal", None, None, Some(4)),
        GenericType::Decimal { precision: 0, scale: 4 }
    );
    // A negative size is cast as it stands
    assert_eq!(
        map_native_type_to_sqlz("", "varchar", Some(-1), None, None),
        GenericType::VarChar(-1i32 as usize)
    );
}

#[test]
fn generic_types_map_to_native_types() {
    let cases = vec![
        (GenericType::TinyInt, "int2"),
        (GenericType::SmallInt, "int2"),
        (GenericType::Integer, "int4"),
        (GenericType::BigInt, "int8"),
        (GenericType::Float, "float4"),
        (GenericType::Double, "float8"),
        (GenericType::Decimal { precision: 5, scale: 1 }, "numeric"),
        (GenericType::VarChar(5), "varchar"),
        (GenericType::Char(5), "bpchar"),
        (GenericType::Text, "text"),
        (GenericType::Json, "json"),
        (GenericType::Blob(0), "bytea"),
        (GenericType::Uuid, "uuid"),
        (GenericType::Boolean, "bool"),
        (GenericType::Date, "date"),
        (GenericType::Timestamp, "timestamp"),
        (GenericType::TimestampTz, "timestamptz"),
        (GenericType::Time, "time"),
        (GenericType::Bit(1), "bit"),
        (GenericType::VarBit(1), "varbit"),
        (GenericType::UserDefined("mood".to_string()), "text"),
    ];
    for (generic, native) in cases {
        assert_eq!(map_sqlz_to_native_type(&generic), native);
    }
}

#[test]
fn catalog_names_are_the_postgres_names() {
    assert_eq!(catalog_name(PgType::Int4), "int4");
    assert_eq!(catalog_name(PgType::Bpchar), "bpchar");
    assert_eq!(catalog_name(PgType::Timestamptz), "timestamptz");
}

#[test]
fn native_round_trip_keeps_the_type() {
    for native in ["int2", "int4", "int8", "float4", "float8", "numeric", "decimal", "char", "bpchar",
        "varchar", "text", "json", "jsonb", "bytea", "bool", "date", "timestamp", "timestamptz"]
    {
        let g = map_native_type_to_sqlz("", native, Some(7), Some(9), Some(3));
        let back = map_sqlz_to_native_type(&g);
        assert_eq!(map_native_type_to_sqlz("", &back, Some(7), Some(9), Some(3)), g);
    }
}

#[test]
fn fk_actions_are_mapped() {
    assert_eq!(map_fk_action("CASCADE"), ForeignKeyAction::Cascade);
    assert_eq!(map_fk_action("SET NULL"), ForeignKeyAction::SetNull);
    assert_eq!(map_fk_action("SET DEFAULT"), ForeignKeyAction::SetDefault);
    assert_eq!(map_fk_action("RESTRICT"), ForeignKeyAction::Restrict);
    assert_eq!(map_fk_action("NO ACTION"), ForeignKeyAction::NoAction);
    assert_eq!(map_fk_action("cascade"), ForeignKeyAction::NoAction);
}

#[test]
fn migration_is_reflexive_and_transitive() {
    let a = table("a", vec![column("x", GenericType::TinyInt), column("y", GenericType::VarChar(3))]);
    let b = table("b", vec![column("x", GenericType::Integer), column("y", GenericType::VarChar(8))]);
    let c = table(
        "c",
        vec![column("x", GenericType::BigInt), column("y", GenericType::Text), column("z", GenericType::Date)],
    );
    assert!(a.can_migrate_to(&a));
    assert!(a.can_migrate_to(&b));
    assert!(b.can_migrate_to(&c));
    assert!(a.can_migrate_to(&c));
    assert!(!c.can_migrate_to(&a));
    assert!(!b.can_migrate_to(&a));
}

#[test]
fn empty_table_migrates_anywhere() {
    let empty = table("e", vec![]);
    let other = table("o", vec![column("x", GenericType::Uuid)]);
    assert!(empty.can_migrate_to(&other));
    assert!(empty.can_migrate_to(&empty));
    assert!(!other.can_migrate_to(&empty));
}

#[test]
fn json_and_user_defined_go_to_text_only() {
    let json = table("j", vec![column("c", GenericType::Json)]);
    let text = table("t", vec![column("c", GenericType::Text)]);
    let ud = table("u", vec![column("c", GenericType::UserDefined("mood".to_string()))]);
    let ud2 = table("u", vec![column("c", GenericType::UserDefined("other".to_string()))]);
    assert!(json.can_migrate_to(&text));
    assert!(!text.can_migrate_to(&json));
    assert!(ud.can_migrate_to(&ud));
    assert!(!ud.can_migrate_to(&ud2));
}

#[test]
fn get_pk_returns_the_first_primary_key() {
    let id = column("id", GenericType::Integer);
    let other = column("other", GenericType::Integer);
    let mut t = table("t", vec![id.clone(), other.clone()]);
    assert!(t.get_pk().is_none());
    t.constraints.push(ConstraintType::Unique {
        constraint_name: "u".to_string(),
        columns: vec![other.clone()],
    });
    t.constraints.push(ConstraintType::PrimaryKey(PrimaryKeyConstraint {
        constraint_name: "pk1".to_string(),
        columns: vec![id.clone()],
    }));
    t.constraints.push(ConstraintType::PrimaryKey(PrimaryKeyConstraint {
        constraint_name: "pk2".to_string(),
        columns: vec![other.clone()],
    }));
    let pk = t.get_pk().unwrap();
    assert_eq!(pk.constraint_name, "pk1");
    assert_eq!(pk.columns.len(), 1);
    assert!(Rc::ptr_eq(&pk.columns[0], &id));
}

#[test]
fn migration_plan_is_valid_when_every_column_is_mapped() {
    let t = table("t", vec![column("a", GenericType::Integer), column("b", GenericType::Text)]);
    let mut plan = MigrationPlan::new(&t);
    assert!(!plan.is_valid());
    plan.target_column_type_map.insert("a".to_string(), "int4".to_string());
    assert!(!plan.is_valid());
    plan.target_column_type_map.insert("b".to_string(), "text".to_string());
    assert!(plan.is_valid());
    plan.target_column_type_map.insert("c".to_string(), "text".to_string());
    assert!(plan.is_valid());

    let empty = table("e", vec![]);
    assert!(MigrationPlan::new(&empty).is_valid());
}

#[test]
fn error_messages() {
    assert_eq!(
        SqlzError::ConnectionError("refused".to_string()).to_string(),
        "Connection error: refused"
    );
    assert_eq!(
        SqlzError::DatabaseError("syntax".to_string()).to_string(),
        "Underlying database error: syntax"
    );
    assert_eq!(SqlzError::MappingError("m".to_string()).to_string(), "Mapping error: m");
    assert_eq!(SqlzError::ValidationError("v".to_string()).to_string(), "Validation error: v");
    assert_eq!(
        SqlzError::MissingFkTable("film".to_string()).to_string(),
        "Missing foreign key table: film"
    );
    assert_eq!(
        SqlzError::DifferentPkColumns("film".to_string(), "id".to_string(), "a, b".to_string())
            .to_string(),
        "Different primary key columns for table film: expected [id] but found [a, b]"
    );
}

fn row(columns: &[&str], values: Vec<SqlzValue>) -> SqlzRow {
    SqlzRow {
        columns: columns.iter().map(|c| c.to_string()).collect(),
        values,
    }
}

#[test]
fn row_get_finds_the_first_column() {
    let r = row(&["a", "b", "a", "c"], vec![SqlzValue::Integer(1), SqlzValue::Text("x".to_string()), SqlzValue::Integer(3)]);
    assert!(matches!(r.get("a"), Some(SqlzValue::Integer(1))));
    assert!(matches!(r.get("b"), Some(SqlzValue::Text(s)) if s == "x"));
    assert!(r.get("c").is_none());
    assert!(r.get("d").is_none());
}

fn pk(columns: Vec<Rc<Column>>) -> PrimaryKeyConstraint {
    PrimaryKeyConstraint { constraint_name: "pk".to_string(), columns }
}

#[test]
fn read_options_default_and_validation() {
    let options = RowReadOptions::default();
    assert_eq!(options.batch_size, 100);
    assert!(options.continue_from.is_none());
    assert!(options.validate().is_ok());

    let zero = RowReadOptions { batch_size: 0, continue_from: None };
    match zero.validate() {
        Err(SqlzError::ValidationError(m)) => assert_eq!(m, "batch_size must be greater than 0"),
        _ => panic!("expected a validation error"),
    }

    let mismatch = RowReadOptions {
        batch_size: 10,
        continue_from: Some(ContinueFrom::new(
            pk(vec![column("id", GenericType::Integer)]),
            vec![],
        )),
    };
    match mismatch.validate() {
        Err(SqlzError::ValidationError(m)) => {
            assert_eq!(m, "where_params length must match primary key columns length")
        }
        _ => panic!("expected a validation error"),
    }

    let ok = RowReadOptions {
        batch_size: 10,
        continue_from: Some(ContinueFrom::new(
            pk(vec![column("id", GenericType::Integer)]),
            vec![SqlzValue::Integer(4)],
        )),
    };
    assert!(ok.validate().is_ok());
}

#[test]
fn full_batch_continues_after_its_last_row() {
    let key = pk(vec![column("b", GenericType::Integer), column("a", GenericType::Text)]);
    let rows = vec![
        row(&["a", "b"], vec![SqlzValue::Text("x".to_string()), SqlzValue::Integer(1)]),
        row(&["a", "b"], vec![SqlzValue::Text("y".to_string()), SqlzValue::Integer(2)]),
    ];
    let next = continue_from_batch(key.clone(), &rows, 2).unwrap();
    assert_eq!(next.primary_key.constraint_name, "pk");
    assert_eq!(next.where_params.len(), 2);
    assert!(matches!(next.where_params[0], SqlzValue::Integer(2)));
    assert!(matches!(&next.where_params[1], SqlzValue::Text(s) if s == "y"));
    let options = RowReadOptions { batch_size: 2, continue_from: Some(next) };
    assert!(options.validate().is_ok());

    assert!(continue_from_batch(key, &rows, 3).is_none());
}

#[test]
fn create_schema_statement() {
    assert_eq!(create_schema_sql("sales"), "CREATE SCHEMA IF NOT EXISTS sales");
}

#[test]
fn columns_are_read_from_catalog_rows() {
    let c = column_from_row(&column_row("price", "numeric", None, Some(8), Some(2)));
    assert_eq!(c.name, "price");
    assert_eq!(c.col_type, GenericType::Decimal { precision: 8, scale: 2 });
    assert_eq!(c.native_type, "numeric");
    assert!(c.is_nullable);
    assert!(!c.is_identity);
    assert_eq!(c.numeric_precision, Some(8));
    assert_eq!(c.numeric_scale, Some(2));

    let i = column_from_row(&column_row("id", "int4", None, Some(32), Some(0)));
    assert_eq!(i.col_type, GenericType::Integer);
    assert_eq!(i.numeric_precision, None);
    assert_eq!(i.numeric_scale, None);

    let rows = vec![column_row("id", "int4", None, None, None), column_row("name", "varchar", Some(40), None, None)];
    let t = table_from_column_rows("public".to_string(), "film".to_string(), &rows);
    assert_eq!(t.name, "film");
    assert_eq!(t.schema.as_deref(), Some("public"));
    assert_eq!(t.columns.len(), 2);
    assert_eq!(t.columns[1].col_type, GenericType::VarChar(40));
    assert_eq!(t.columns[1].max_length, Some(40));
    assert!(t.constraints.is_empty());
}

#[test]
fn constraint_rows_build_keys() {
    let mut t = table("t", vec![column("a", GenericType::Integer), column("b", GenericType::Integer)]);
    apply_constraint_row(&mut t, &constraint_row("t_pkey", "PRIMARY KEY", "a"));
    apply_constraint_row(&mut t, &constraint_row("t_pkey2", "PRIMARY KEY", "b"));
    apply_constraint_row(&mut t, &constraint_row("u1", "UNIQUE", "b"));
    apply_constraint_row(&mut t, &constraint_row("u2", "UNIQUE", "a"));
    apply_constraint_row(&mut t, &constraint_row("u1", "UNIQUE", "a"));
    apply_constraint_row(&mut t, &constraint_row("chk", "CHECK", "a"));
    apply_constraint_row(&mut t, &constraint_row("u3", "UNIQUE", "missing"));
    assert_eq!(t.constraints.len(), 3);
    match &t.constraints[0] {
        ConstraintType::PrimaryKey(pk) => {
            assert_eq!(pk.constraint_name, "t_pkey");
            let names: Vec<&str> = pk.columns.iter().map(|c| c.name.as_str()).collect();
            assert_eq!(names, vec!["a", "b"]);
        }
        _ => panic!("expected the primary key first"),
    }
    match &t.constraints[1] {
        ConstraintType::Unique { constraint_name, columns } => {
            assert_eq!(constraint_name, "u1");
            let names: Vec<&str> = columns.iter().map(|c| c.name.as_str()).collect();
            assert_eq!(names, vec!["b", "a"]);
        }
        _ => panic!("expected a unique constraint"),
    }
    match &t.constraints[2] {
        ConstraintType::Unique { constraint_name, columns } => {
            assert_eq!(constraint_name, "u2");
            assert_eq!(columns.len(), 1);
        }
        _ => panic!("expected a unique constraint"),
    }
}

#[test]
fn foreign_key_rows_reference_looked_up_columns() {
    let films = table("film", vec![column("film_id", GenericType::Integer)]);
    let mut rentals = table("rental", vec![column("id", GenericType::Integer), column("film_id", GenericType::Integer)]);
    let tables = vec![films];
    let lookup = build_column_lookup(&tables);
    assert!(lookup.get("public", "film", "film_id").is_some());
    assert!(lookup.get("public", "film", "id").is_none());

    apply_foreign_key_row(
        &mut rentals,
        &ForeignKeyRow {
            constraint_name: "rental_film_fkey".to_string(),
            column_name: "film_id".to_string(),
            foreign_table_schema: "public".to_string(),
            foreign_table_name: "film".to_string(),
            foreign_column_name: "film_id".to_string(),
            on_update: "CASCADE".to_string(),
            on_delete: "RESTRICT".to_string(),
        },
        &lookup,
    );
    apply_foreign_key_row(
        &mut rentals,
        &ForeignKeyRow {
            constraint_name: "dangling".to_string(),
            column_name: "film_id".to_string(),
            foreign_table_schema: "public".to_string(),
            foreign_table_name: "store".to_string(),
            foreign_column_name: "store_id".to_string(),
            on_update: "CASCADE".to_string(),
            on_delete: "CASCADE".to_string(),
        },
        &lookup,
    );
    assert_eq!(rentals.constraints.len(), 1);
    match &rentals.constraints[0] {
        ConstraintType::ForeignKey {
            constraint_name,
            source_column,
            referenced_table,
            referenced_column,
            on_update,
            on_delete,
        } => {
            assert_eq!(constraint_name, "rental_film_fkey");
            assert!(Rc::ptr_eq(source_column, &rentals.columns[1]));
            assert_eq!(referenced_table, "film");
            assert!(Rc::ptr_eq(referenced_column, &tables[0].columns[0]));
            assert_eq!(*on_update, ForeignKeyAction::Cascade);
            assert_eq!(*on_delete, ForeignKeyAction::Restrict);
        }
        _ => panic!("expected a foreign key"),
    }
}

#[test]
fn later_tables_win_in_the_lookup() {
    let first = table("t", vec![column("c", GenericType::Integer)]);
    let second = table("t", vec![column("c", GenericType::Text)]);
    let tables = vec![first, second];
    let lookup = build_column_lookup(&tables);
    let found = lookup.get("public", "t", "c").unwrap();
    assert!(Rc::ptr_eq(&found, &tables[1].columns[0]));
}

#[test]
fn requested_tables_default_to_public() {
    let mut no_schema = table("film", vec![]);
    no_schema.schema = None;
    let sales = Table {
        name: "orders".to_string(),
        schema: Some("sales".to_string()),
        columns: vec![],
        constraints: vec![],
    };
    let tables = vec![no_schema, sales];
    assert!(contains_table(&tables, "public", "film"));
    assert!(contains_table(&tables, "sales", "orders"));
    assert!(!contains_table(&tables, "public", "orders"));
    assert!(!contains_table(&tables, "sales", "film"));
}

#[test]
fn values_clone_to_equal_values() {
    let v = SqlzValue::Blob(vec![1, 2, 3]);
    match v.clone() {
        SqlzValue::Blob(b) => assert_eq!(b, vec![1, 2, 3]),
        _ => panic!("expected a blob"),
    }
}
