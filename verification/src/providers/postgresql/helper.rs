use vstd::prelude::*;

use crate::providers::postgresql::constants;
use crate::providers::postgresql::pg_type::{catalog_name, pg_type_name, PgType};
use crate::sqlz::types::{ForeignKeyAction, GenericType, GenericTypeView};
use crate::support::{owned, str_eq};

verus! {

/// The foreign key action that PostgreSQL's catalog names `action`.
pub open spec fn fk_action_of(action: Seq<char>) -> ForeignKeyAction {
    if action == constants::FK_ACTION_CASCADE@ {
        ForeignKeyAction::Cascade
    } else if action == constants::FK_ACTION_SET_NULL@ {
        ForeignKeyAction::SetNull
    } else if action == constants::FK_ACTION_SET_DEFAULT@ {
        ForeignKeyAction::SetDefault
    } else if action == constants::FK_ACTION_RESTRICT@ {
        ForeignKeyAction::Restrict
    } else {
        ForeignKeyAction::NoAction
    }
}

pub fn map_fk_action(action: &str) -> (r: ForeignKeyAction)
    ensures
        r == fk_action_of(action@),
{
    if str_eq(action, constants::FK_ACTION_CASCADE) {
        ForeignKeyAction::Cascade
    } else if str_eq(action, constants::FK_ACTION_SET_NULL) {
        ForeignKeyAction::SetNull
    } else if str_eq(action, constants::FK_ACTION_SET_DEFAULT) {
        ForeignKeyAction::SetDefault
    } else if str_eq(action, constants::FK_ACTION_RESTRICT) {
        ForeignKeyAction::Restrict
    } else {
        ForeignKeyAction::NoAction
    }
}

/// A length, precision or scale from the catalog as a size: the value cast to
/// `usize`, or 0 when the catalog gives none.
pub open spec fn size_or_zero(v: Option<i32>) -> usize {
    match v {
        Some(x) => x as usize,
        None => 0,
    }
}

fn to_size(v: Option<i32>) -> (r: usize)
    ensures
        r == size_or_zero(v),
{
    match v {
        Some(x) => x as usize,
        None => 0,
    }
}

/// The generic type of a column whose PostgreSQL type is called `native`.
pub open spec fn generic_type_of(
    native: Seq<char>,
    char_len: Option<i32>,
    precision: Option<i32>,
    scale: Option<i32>,
) -> GenericTypeView {
    if native == pg_type_name(PgType::Int2) {
        GenericTypeView::SmallInt
    } else if native == pg_type_name(PgType::Int4) {
        GenericTypeView::Integer
    } else if native == pg_type_name(PgType::Int8) {
        GenericTypeView::BigInt
    } else if native == pg_type_name(PgType::Float4) {
        GenericTypeView::Float
    } else if native == pg_type_name(PgType::Float8) {
        GenericTypeView::Double
    } else if native == pg_type_name(PgType::Numeric) || native == constants::NATIVE_TYPE_DECIMAL@ {
        GenericTypeView::Decimal { precision: size_or_zero(precision), scale: size_or_zero(scale) }
    } else if native == pg_type_name(PgType::Char) || native == pg_type_name(PgType::Bpchar) {
        GenericTypeView::Char(size_or_zero(char_len))
    } else if native == pg_type_name(PgType::Varchar) {
        GenericTypeView::VarChar(size_or_zero(char_len))
    } else if native == pg_type_name(PgType::Text) {
        GenericTypeView::Text
    } else if native == pg_type_name(PgType::Json) || native == pg_type_name(PgType::Jsonb) {
        GenericTypeView::Json
    } else if native == pg_type_name(PgType::Bytea) {
        GenericTypeView::Blob(0)
    } else if native == pg_type_name(PgType::Bool) {
        GenericTypeView::Boolean
    } else if native == pg_type_name(PgType::Date) {
        GenericTypeView::Date
    } else if native == pg_type_name(PgType::Timestamp) {
        GenericTypeView::Timestamp
    } else if native == pg_type_name(PgType::Timestamptz) {
        GenericTypeView::TimestampTz
    } else {
        GenericTypeView::UserDefined(native)
    }
}

/// Whether `native` names the built-in type `t`.
fn is_type(native: &str, t: PgType) -> (r: bool)
    ensures
        r == (native@ == pg_type_name(t)),
{
    let name = catalog_name(t);
    str_eq(native, name.as_str())
}

pub fn map_native_type_to_sqlz(
    _data_type: &str,
    native_type: &str,
    char_len: Option<i32>,
    precision: Option<i32>,
    scale: Option<i32>,
) -> (r: GenericType)
    ensures
        r@ == generic_type_of(native_type@, char_len, precision, scale),
{
    if is_type(native_type, PgType::Int2) {
        GenericType::SmallInt
    } else if is_type(native_type, PgType::Int4) {
        GenericType::Integer
    } else if is_type(native_type, PgType::Int8) {
        GenericType::BigInt
    } else if is_type(native_type, PgType::Float4) {
        GenericType::Float
    } else if is_type(native_type, PgType::Float8) {
        GenericType::Double
    } else if is_type(native_type, PgType::Numeric) || str_eq(
        native_type,
        constants::NATIVE_TYPE_DECIMAL,
    ) {
        GenericType::Decimal { precision: to_size(precision), scale: to_size(scale) }
    } else if is_type(native_type, PgType::Char) || is_type(native_type, PgType::Bpchar) {
        GenericType::Char(to_size(char_len))
    } else if is_type(native_type, PgType::Varchar) {
        GenericType::VarChar(to_size(char_len))
    } else if is_type(native_type, PgType::Text) {
        GenericType::Text
    } else if is_type(native_type, PgType::Json) || is_type(native_type, PgType::Jsonb) {
        GenericType::Json
    } else if is_type(native_type, PgType::Bytea) {
        GenericType::Blob(0)
    } else if is_type(native_type, PgType::Bool) {
        GenericType::Boolean
    } else if is_type(native_type, PgType::Date) {
        GenericType::Date
    } else if is_type(native_type, PgType::Timestamp) {
        GenericType::Timestamp
    } else if is_type(native_type, PgType::Timestamptz) {
        GenericType::TimestampTz
    } else {
        GenericType::UserDefined(owned(native_type))
    }
}

/// The PostgreSQL type that a column of generic type `t` is created with.
pub open spec fn native_type_of(t: GenericTypeView) -> Seq<char> {
    match t {
        GenericTypeView::TinyInt => pg_type_name(PgType::Int2),
        GenericTypeView::SmallInt => pg_type_name(PgType::Int2),
        GenericTypeView::Integer => pg_type_name(PgType::Int4),
        GenericTypeView::BigInt => pg_type_name(PgType::Int8),
        GenericTypeView::Float => pg_type_name(PgType::Float4),
        GenericTypeView::Double => pg_type_name(PgType::Float8),
        GenericTypeView::Decimal { .. } => pg_type_name(PgType::Numeric),
        GenericTypeView::VarChar(_) => pg_type_name(PgType::Varchar),
        GenericTypeView::Char(_) => pg_type_name(PgType::Bpchar),
        GenericTypeView::Text => pg_type_name(PgType::Text),
        GenericTypeView::Json => pg_type_name(PgType::Json),
        GenericTypeView::Blob(_) => pg_type_name(PgType::Bytea),
        GenericTypeView::Uuid => pg_type_name(PgType::Uuid),
        GenericTypeView::Boolean => pg_type_name(PgType::Bool),
        GenericTypeView::Date => pg_type_name(PgType::Date),
        GenericTypeView::Timestamp => pg_type_name(PgType::Timestamp),
        GenericTypeView::TimestampTz => pg_type_name(PgType::Timestamptz),
        GenericTypeView::Time => pg_type_name(PgType::Time),
        GenericTypeView::Bit(_) => pg_type_name(PgType::Bit),
        GenericTypeView::VarBit(_) => pg_type_name(PgType::Varbit),
        GenericTypeView::UserDefined(_) => "text"@,
    }
}

pub fn map_sqlz_to_native_type(generic_type: &GenericType) -> (r: String)
    ensures
        r@ == native_type_of(generic_type@),
{
    match generic_type {
        // PostgreSQL has no one-byte integer: the smallest one holds it
        GenericType::TinyInt => catalog_name(PgType::Int2),
        GenericType::SmallInt => catalog_name(PgType::Int2),
        GenericType::Integer => catalog_name(PgType::Int4),
        GenericType::BigInt => catalog_name(PgType::Int8),
        GenericType::Float => catalog_name(PgType::Float4),
        GenericType::Double => catalog_name(PgType::Float8),
        GenericType::Decimal { .. } => catalog_name(PgType::Numeric),
        GenericType::VarChar(_) => catalog_name(PgType::Varchar),
        GenericType::Char(_) => catalog_name(PgType::Bpchar),
        GenericType::Text => catalog_name(PgType::Text),
        GenericType::Json => catalog_name(PgType::Json),
        GenericType::Blob(_) => catalog_name(PgType::Bytea),
        GenericType::Uuid => catalog_name(PgType::Uuid),
        GenericType::Boolean => catalog_name(PgType::Bool),
        GenericType::Date => catalog_name(PgType::Date),
        GenericType::Timestamp => catalog_name(PgType::Timestamp),
        GenericType::TimestampTz => catalog_name(PgType::Timestamptz),
        GenericType::Time => catalog_name(PgType::Time),
        GenericType::Bit(_) => catalog_name(PgType::Bit),
        GenericType::VarBit(_) => catalog_name(PgType::Varbit),
        GenericType::UserDefined(_) => owned("text"),
    }
}

/// A column type read from PostgreSQL survives the way back: the native type
/// that its generic type is created with maps to the same generic type, for
/// every built-in type that the mapping knows.
pub proof fn lemma_native_round_trip(
    native: Seq<char>,
    char_len: Option<i32>,
    precision: Option<i32>,
    scale: Option<i32>,
)
    requires
        !(generic_type_of(native, char_len, precision, scale) is UserDefined),
    ensures
        generic_type_of(
            native_type_of(generic_type_of(native, char_len, precision, scale)),
            char_len,
            precision,
            scale,
        ) == generic_type_of(native, char_len, precision, scale),
{
    reveal_strlit("int2");
    reveal_strlit("int4");
    reveal_strlit("int8");
    reveal_strlit("float4");
    reveal_strlit("float8");
    reveal_strlit("numeric");
    reveal_strlit("char");
    reveal_strlit("bpchar");
    reveal_strlit("varchar");
    reveal_strlit("text");
    reveal_strlit("json");
    reveal_strlit("jsonb");
    reveal_strlit("bytea");
    reveal_strlit("bool");
    reveal_strlit("date");
    reveal_strlit("timestamp");
    reveal_strlit("timestamptz");
    reveal_strlit("decimal");
    assert("int4"@ != "int2"@) by { assert("int4"@[3] != "int2"@[3]); }
    assert("int8"@ != "int2"@) by { assert("int8"@[3] != "int2"@[3]); }
    assert("int8"@ != "int4"@) by { assert("int8"@[3] != "int4"@[3]); }
    assert("float4"@ != "int2"@) by { assert("float4"@.len() != "int2"@.len()); }
    assert("float4"@ != "int4"@) by { assert("float4"@.len() != "int4"@.len()); }
    assert("float4"@ != "int8"@) by { assert("float4"@.len() != "int8"@.len()); }
    assert("float8"@ != "int2"@) by { assert("float8"@.len() != "int2"@.len()); }
    assert("float8"@ != "int4"@) by { assert("float8"@.len() != "int4"@.len()); }
    assert("float8"@ != "int8"@) by { assert("float8"@.len() != "int8"@.len()); }
    assert("float8"@ != "float4"@) by { assert("float8"@[5] != "float4"@[5]); }
    assert("numeric"@ != "int2"@) by { assert("numeric"@.len() != "int2"@.len()); }
    assert("numeric"@ != "int4"@) by { assert("numeric"@.len() != "int4"@.len()); }
    assert("numeric"@ != "int8"@) by { assert("numeric"@.len() != "int8"@.len()); }
    assert("numeric"@ != "float4"@) by { assert("numeric"@.len() != "float4"@.len()); }
    assert("numeric"@ != "float8"@) by { assert("numeric"@.len() != "float8"@.len()); }
    assert("bpchar"@ != "int2"@) by { assert("bpchar"@.len() != "int2"@.len()); }
    assert("bpchar"@ != "int4"@) by { assert("bpchar"@.len() != "int4"@.len()); }
    assert("bpchar"@ != "int8"@) by { assert("bpchar"@.len() != "int8"@.len()); }
    assert("bpchar"@ != "float4"@) by { assert("bpchar"@[0] != "float4"@[0]); }
    assert("bpchar"@ != "float8"@) by { assert("bpchar"@[0] != "float8"@[0]); }
    assert("bpchar"@ != "numeric"@) by { assert("bpchar"@.len() != "numeric"@.len()); }
    assert("bpchar"@ != "decimal"@) by { assert("bpchar"@.len() != "decimal"@.len()); }
    assert("varchar"@ != "int2"@) by { assert("varchar"@.len() != "int2"@.len()); }
    assert("varchar"@ != "int4"@) by { assert("varchar"@.len() != "int4"@.len()); }
    assert("varchar"@ != "int8"@) by { assert("varchar"@.len() != "int8"@.len()); }
    assert("varchar"@ != "float4"@) by { assert("varchar"@.len() != "float4"@.len()); }
    assert("varchar"@ != "float8"@) by { assert("varchar"@.len() != "float8"@.len()); }
    assert("varchar"@ != "numeric"@) by { assert("varchar"@[0] != "numeric"@[0]); }
    assert("varchar"@ != "decimal"@) by { assert("varchar"@[0] != "decimal"@[0]); }
    assert("varchar"@ != "char"@) by { assert("varchar"@.len() != "char"@.len()); }
    assert("varchar"@ != "bpchar"@) by { assert("varchar"@.len() != "bpchar"@.len()); }
    assert("text"@ != "int2"@) by { assert("text"@[0] != "int2"@[0]); }
    assert("text"@ != "int4"@) by { assert("text"@[0] != "int4"@[0]); }
    assert("text"@ != "int8"@) by { assert("text"@[0] != "int8"@[0]); }
    assert("text"@ != "float4"@) by { assert("text"@.len() != "float4"@.len()); }
    assert("text"@ != "float8"@) by { assert("text"@.len() != "float8"@.len()); }
    assert("text"@ != "numeric"@) by { assert("text"@.len() != "numeric"@.len()); }
    assert("text"@ != "decimal"@) by { assert("text"@.len() != "decimal"@.len()); }
    assert("text"@ != "char"@) by { assert("text"@[0] != "char"@[0]); }
    assert("text"@ != "bpchar"@) by { assert("text"@.len() != "bpchar"@.len()); }
    assert("text"@ != "varchar"@) by { assert("text"@.len() != "varchar"@.len()); }
    assert("json"@ != "int2"@) by { assert("json"@[0] != "int2"@[0]); }
    assert("json"@ != "int4"@) by { assert("json"@[0] != "int4"@[0]); }
    assert("json"@ != "int8"@) by { assert("json"@[0] != "int8"@[0]); }
    assert("json"@ != "float4"@) by { assert("json"@.len() != "float4"@.len()); }
    assert("json"@ != "float8"@) by { assert("json"@.len() != "float8"@.len()); }
    assert("json"@ != "numeric"@) by { assert("json"@.len() != "numeric"@.len()); }
    assert("json"@ != "decimal"@) by { assert("json"@.len() != "decimal"@.len()); }
    assert("json"@ != "char"@) by { assert("json"@[0] != "char"@[0]); }
    assert("json"@ != "bpchar"@) by { assert("json"@.len() != "bpchar"@.len()); }
    assert("json"@ != "varchar"@) by { assert("json"@.len() != "varchar"@.len()); }
    assert("json"@ != "text"@) by { assert("json"@[0] != "text"@[0]); }
    assert("bytea"@ != "int2"@) by { assert("bytea"@.len() != "int2"@.len()); }
    assert("bytea"@ != "int4"@) by { assert("bytea"@.len() != "int4"@.len()); }
    assert("bytea"@ != "int8"@) by { assert("bytea"@.len() != "int8"@.len()); }
    assert("bytea"@ != "float4"@) by { assert("bytea"@.len() != "float4"@.len()); }
    assert("bytea"@ != "float8"@) by { assert("bytea"@.len() != "float8"@.len()); }
    assert("bytea"@ != "numeric"@) by { assert("bytea"@.len() != "numeric"@.len()); }
    assert("bytea"@ != "decimal"@) by { assert("bytea"@.len() != "decimal"@.len()); }
    assert("bytea"@ != "char"@) by { assert("bytea"@.len() != "char"@.len()); }
    assert("bytea"@ != "bpchar"@) by { assert("bytea"@.len() != "bpchar"@.len()); }
    assert("bytea"@ != "varchar"@) by { assert("bytea"@.len() != "varchar"@.len()); }
    assert("bytea"@ != "text"@) by { assert("bytea"@.len() != "text"@.len()); }
    assert("bytea"@ != "json"@) by { assert("bytea"@.len() != "json"@.len()); }
    assert("bytea"@ != "jsonb"@) by { assert("bytea"@[0] != "jsonb"@[0]); }
    assert("bool"@ != "int2"@) by { assert("bool"@[0] != "int2"@[0]); }
    assert("bool"@ != "int4"@) by { assert("bool"@[0] != "int4"@[0]); }
    assert("bool"@ != "int8"@) by { assert("bool"@[0] != "int8"@[0]); }
    assert("bool"@ != "float4"@) by { assert("bool"@.len() != "float4"@.len()); }
    assert("bool"@ != "float8"@) by { assert("bool"@.len() != "float8"@.len()); }
    assert("bool"@ != "numeric"@) by { assert("bool"@.len() != "numeric"@.len()); }
    assert("bool"@ != "decimal"@) by { assert("bool"@.len() != "decimal"@.len()); }
    assert("bool"@ != "char"@) by { assert("bool"@[0] != "char"@[0]); }
    assert("bool"@ != "bpchar"@) by { assert("bool"@.len() != "bpchar"@.len()); }
    assert("bool"@ != "varchar"@) by { assert("bool"@.len() != "varchar"@.len()); }
    assert("bool"@ != "text"@) by { assert("bool"@[0] != "text"@[0]); }
    assert("bool"@ != "json"@) by { assert("bool"@[0] != "json"@[0]); }
    assert("bool"@ != "jsonb"@) by { assert("bool"@.len() != "jsonb"@.len()); }
    assert("bool"@ != "bytea"@) by { assert("bool"@.len() != "bytea"@.len()); }
    assert("date"@ != "int2"@) by { assert("date"@[0] != "int2"@[0]); }
    assert("date"@ != "int4"@) by { assert("date"@[0] != "int4"@[0]); }
    assert("date"@ != "int8"@) by { assert("date"@[0] != "int8"@[0]); }
    assert("date"@ != "float4"@) by { assert("date"@.len() != "float4"@.len()); }
    assert("date"@ != "float8"@) by { assert("date"@.len() != "float8"@.len()); }
    assert("date"@ != "numeric"@) by { assert("date"@.len() != "numeric"@.len()); }
    assert("date"@ != "decimal"@) by { assert("date"@.len() != "decimal"@.len()); }
    assert("date"@ != "char"@) by { assert("date"@[0] != "char"@[0]); }
    assert("date"@ != "bpchar"@) by { assert("date"@.len() != "bpchar"@.len()); }
    assert("date"@ != "varchar"@) by { assert("date"@.len() != "varchar"@.len()); }
    assert("date"@ != "text"@) by { assert("date"@[0] != "text"@[0]); }
    assert("date"@ != "json"@) by { assert("date"@[0] != "json"@[0]); }
    assert("date"@ != "jsonb"@) by { assert("date"@.len() != "jsonb"@.len()); }
    assert("date"@ != "bytea"@) by { assert("date"@.len() != "bytea"@.len()); }
    assert("date"@ != "bool"@) by { assert("date"@[0] != "bool"@[0]); }
    assert("timestamp"@ != "int2"@) by { assert("timestamp"@.len() != "int2"@.len()); }
    assert("timestamp"@ != "int4"@) by { assert("timestamp"@.len() != "int4"@.len()); }
    assert("timestamp"@ != "int8"@) by { assert("timestamp"@.len() != "int8"@.len()); }
    assert("timestamp"@ != "float4"@) by { assert("timestamp"@.len() != "float4"@.len()); }
    assert("timestamp"@ != "float8"@) by { assert("timestamp"@.len() != "float8"@.len()); }
    assert("timestamp"@ != "numeric"@) by { assert("timestamp"@.len() != "numeric"@.len()); }
    assert("timestamp"@ != "decimal"@) by { assert("timestamp"@.len() != "decimal"@.len()); }
    assert("timestamp"@ != "char"@) by { assert("timestamp"@.len() != "char"@.len()); }
    assert("timestamp"@ != "bpchar"@) by { assert("timestamp"@.len() != "bpchar"@.len()); }
    assert("timestamp"@ != "varchar"@) by { assert("timestamp"@.len() != "varchar"@.len()); }
    assert("timestamp"@ != "text"@) by { assert("timestamp"@.len() != "text"@.len()); }
    assert("timestamp"@ != "json"@) by { assert("timestamp"@.len() != "json"@.len()); }
    assert("timestamp"@ != "jsonb"@) by { assert("timestamp"@.len() != "jsonb"@.len()); }
    assert("timestamp"@ != "bytea"@) by { assert("timestamp"@.len() != "bytea"@.len()); }
    assert("timestamp"@ != "bool"@) by { assert("timestamp"@.len() != "bool"@.len()); }
    assert("timestamp"@ != "date"@) by { assert("timestamp"@.len() != "date"@.len()); }
    assert("timestamptz"@ != "int2"@) by { assert("timestamptz"@.len() != "int2"@.len()); }
    assert("timestamptz"@ != "int4"@) by { assert("timestamptz"@.len() != "int4"@.len()); }
    assert("timestamptz"@ != "int8"@) by { assert("timestamptz"@.len() != "int8"@.len()); }
    assert("timestamptz"@ != "float4"@) by { assert("timestamptz"@.len() != "float4"@.len()); }
    assert("timestamptz"@ != "float8"@) by { assert("timestamptz"@.len() != "float8"@.len()); }
    assert("timestamptz"@ != "numeric"@) by { assert("timestamptz"@.len() != "numeric"@.len()); }
    assert("timestamptz"@ != "decimal"@) by { assert("timestamptz"@.len() != "decimal"@.len()); }
    assert("timestamptz"@ != "char"@) by { assert("timestamptz"@.len() != "char"@.len()); }
    assert("timestamptz"@ != "bpchar"@) by { assert("timestamptz"@.len() != "bpchar"@.len()); }
    assert("timestamptz"@ != "varchar"@) by { assert("timestamptz"@.len() != "varchar"@.len()); }
    assert("timestamptz"@ != "text"@) by { assert("timestamptz"@.len() != "text"@.len()); }
    assert("timestamptz"@ != "json"@) by { assert("timestamptz"@.len() != "json"@.len()); }
    assert("timestamptz"@ != "jsonb"@) by { assert("timestamptz"@.len() != "jsonb"@.len()); }
    assert("timestamptz"@ != "bytea"@) by { assert("timestamptz"@.len() != "bytea"@.len()); }
    assert("timestamptz"@ != "bool"@) by { assert("timestamptz"@.len() != "bool"@.len()); }
    assert("timestamptz"@ != "date"@) by { assert("timestamptz"@.len() != "date"@.len()); }
    assert("timestamptz"@ != "timestamp"@) by { assert("timestamptz"@.len() != "timestamp"@.len()); }
}

/// The generic type of each built-in PostgreSQL type that the mapping knows,
/// by its name in the catalog: sized types take the catalog's size, cast to
/// `usize` (0 when the catalog gives none).
pub proof fn lemma_known_native_types(
    char_len: Option<i32>,
    precision: Option<i32>,
    scale: Option<i32>,
)
    ensures
        generic_type_of("int2"@, char_len, precision, scale) == GenericTypeView::SmallInt,
        generic_type_of("int4"@, char_len, precision, scale) == GenericTypeView::Integer,
        generic_type_of("int8"@, char_len, precision, scale) == GenericTypeView::BigInt,
        generic_type_of("float4"@, char_len, precision, scale) == GenericTypeView::Float,
        generic_type_of("float8"@, char_len, precision, scale) == GenericTypeView::Double,
        generic_type_of("numeric"@, char_len, precision, scale) == (GenericTypeView::Decimal {
            precision: size_or_zero(precision),
            scale: size_or_zero(scale),
        }),
        generic_type_of("decimal"@, char_len, precision, scale) == (GenericTypeView::Decimal {
            precision: size_or_zero(precision),
            scale: size_or_zero(scale),
        }),
        generic_type_of("char"@, char_len, precision, scale)
            == GenericTypeView::Char(size_or_zero(char_len)),
        generic_type_of("bpchar"@, char_len, precision, scale)
            == GenericTypeView::Char(size_or_zero(char_len)),
        generic_type_of("varchar"@, char_len, precision, scale)
            == GenericTypeView::VarChar(size_or_zero(char_len)),
        generic_type_of("text"@, char_len, precision, scale) == GenericTypeView::Text,
        generic_type_of("json"@, char_len, precision, scale) == GenericTypeView::Json,
        generic_type_of("jsonb"@, char_len, precision, scale) == GenericTypeView::Json,
        generic_type_of("bytea"@, char_len, precision, scale) == GenericTypeView::Blob(0),
        generic_type_of("bool"@, char_len, precision, scale) == GenericTypeView::Boolean,
        generic_type_of("date"@, char_len, precision, scale) == GenericTypeView::Date,
        generic_type_of("timestamp"@, char_len, precision, scale) == GenericTypeView::Timestamp,
        generic_type_of("timestamptz"@, char_len, precision, scale) == GenericTypeView::TimestampTz,
{
    reveal_strlit("int2");
    reveal_strlit("int4");
    reveal_strlit("int8");
    reveal_strlit("float4");
    reveal_strlit("float8");
    reveal_strlit("numeric");
    reveal_strlit("decimal");
    reveal_strlit("char");
    reveal_strlit("bpchar");
    reveal_strlit("varchar");
    reveal_strlit("text");
    reveal_strlit("json");
    reveal_strlit("jsonb");
    reveal_strlit("bytea");
    reveal_strlit("bool");
    reveal_strlit("date");
    reveal_strlit("timestamp");
    reveal_strlit("timestamptz");
    assert("int4"@ != "int2"@) by { assert("int4"@[3] != "int2"@[3]); }
    assert("int8"@ != "int2"@) by { assert("int8"@[3] != "int2"@[3]); }
    assert("int8"@ != "int4"@) by { assert("int8"@[3] != "int4"@[3]); }
    assert("float4"@ != "int2"@) by { assert("float4"@.len() != "int2"@.len()); }
    assert("float4"@ != "int4"@) by { assert("float4"@.len() != "int4"@.len()); }
    assert("float4"@ != "int8"@) by { assert("float4"@.len() != "int8"@.len()); }
    assert("float8"@ != "int2"@) by { assert("float8"@.len() != "int2"@.len()); }
    assert("float8"@ != "int4"@) by { assert("float8"@.len() != "int4"@.len()); }
    assert("float8"@ != "int8"@) by { assert("float8"@.len() != "int8"@.len()); }
    assert("float8"@ != "float4"@) by { assert("float8"@[5] != "float4"@[5]); }
    assert("numeric"@ != "int2"@) by { assert("numeric"@.len() != "int2"@.len()); }
    assert("numeric"@ != "int4"@) by { assert("numeric"@.len() != "int4"@.len()); }
    assert("numeric"@ != "int8"@) by { assert("numeric"@.len() != "int8"@.len()); }
    assert("numeric"@ != "float4"@) by { assert("numeric"@.len() != "float4"@.len()); }
    assert("numeric"@ != "float8"@) by { assert("numeric"@.len() != "float8"@.len()); }
    assert("decimal"@ != "int2"@) by { assert("decimal"@.len() != "int2"@.len()); }
    assert("decimal"@ != "int4"@) by { assert("decimal"@.len() != "int4"@.len()); }
    assert("decimal"@ != "int8"@) by { assert("decimal"@.len() != "int8"@.len()); }
    assert("decimal"@ != "float4"@) by { assert("decimal"@.len() != "float4"@.len()); }
    assert("decimal"@ != "float8"@) by { assert("decimal"@.len() != "float8"@.len()); }
    assert("decimal"@ != "numeric"@) by { assert("decimal"@[0] != "numeric"@[0]); }
    assert("char"@ != "int2"@) by { assert("char"@[0] != "int2"@[0]); }
    assert("char"@ != "int4"@) by { assert("char"@[0] != "int4"@[0]); }
    assert("char"@ != "int8"@) by { assert("char"@[0] != "int8"@[0]); }
    assert("char"@ != "float4"@) by { assert("char"@.len() != "float4"@.len()); }
    assert("char"@ != "float8"@) by { assert("char"@.len() != "float8"@.len()); }
    assert("char"@ != "numeric"@) by { assert("char"@.len() != "numeric"@.len()); }
    assert("char"@ != "decimal"@) by { assert("char"@.len() != "decimal"@.len()); }
    assert("bpchar"@ != "int2"@) by { assert("bpchar"@.len() != "int2"@.len()); }
    assert("bpchar"@ != "int4"@) by { assert("bpchar"@.len() != "int4"@.len()); }
    assert("bpchar"@ != "int8"@) by { assert("bpchar"@.len() != "int8"@.len()); }
    assert("bpchar"@ != "float4"@) by { assert("bpchar"@[0] != "float4"@[0]); }
    assert("bpchar"@ != "float8"@) by { assert("bpchar"@[0] != "float8"@[0]); }
    assert("bpchar"@ != "numeric"@) by { assert("bpchar"@.len() != "numeric"@.len()); }
    assert("bpchar"@ != "decimal"@) by { assert("bpchar"@.len() != "decimal"@.len()); }
    assert("bpchar"@ != "char"@) by { assert("bpchar"@.len() != "char"@.len()); }
    assert("varchar"@ != "int2"@) by { assert("varchar"@.len() != "int2"@.len()); }
    assert("varchar"@ != "int4"@) by { assert("varchar"@.len() != "int4"@.len()); }
    assert("varchar"@ != "int8"@) by { assert("varchar"@.len() != "int8"@.len()); }
    assert("varchar"@ != "float4"@) by { assert("varchar"@.len() != "float4"@.len()); }
    assert("varchar"@ != "float8"@) by { assert("varchar"@.len() != "float8"@.len()); }
    assert("varchar"@ != "numeric"@) by { assert("varchar"@[0] != "numeric"@[0]); }
    assert("varchar"@ != "decimal"@) by { assert("varchar"@[0] != "decimal"@[0]); }
    assert("varchar"@ != "char"@) by { assert("varchar"@.len() != "char"@.len()); }
    assert("varchar"@ != "bpchar"@) by { assert("varchar"@.len() != "bpchar"@.len()); }
    assert("text"@ != "int2"@) by { assert("text"@[0] != "int2"@[0]); }
    assert("text"@ != "int4"@) by { assert("text"@[0] != "int4"@[0]); }
    assert("text"@ != "int8"@) by { assert("text"@[0] != "int8"@[0]); }
    assert("text"@ != "float4"@) by { assert("text"@.len() != "float4"@.len()); }
    assert("text"@ != "float8"@) by { assert("text"@.len() != "float8"@.len()); }
    assert("text"@ != "numeric"@) by { assert("text"@.len() != "numeric"@.len()); }
    assert("text"@ != "decimal"@) by { assert("text"@.len() != "decimal"@.len()); }
    assert("text"@ != "char"@) by { assert("text"@[0] != "char"@[0]); }
    assert("text"@ != "bpchar"@) by { assert("text"@.len() != "bpchar"@.len()); }
    assert("text"@ != "varchar"@) by { assert("text"@.len() != "varchar"@.len()); }
    assert("json"@ != "int2"@) by { assert("json"@[0] != "int2"@[0]); }
    assert("json"@ != "int4"@) by { assert("json"@[0] != "int4"@[0]); }
    assert("json"@ != "int8"@) by { assert("json"@[0] != "int8"@[0]); }
    assert("json"@ != "float4"@) by { assert("json"@.len() != "float4"@.len()); }
    assert("json"@ != "float8"@) by { assert("json"@.len() != "float8"@.len()); }
    assert("json"@ != "numeric"@) by { assert("json"@.len() != "numeric"@.len()); }
    assert("json"@ != "decimal"@) by { assert("json"@.len() != "decimal"@.len()); }
    assert("json"@ != "char"@) by { assert("json"@[0] != "char"@[0]); }
    assert("json"@ != "bpchar"@) by { assert("json"@.len() != "bpchar"@.len()); }
    assert("json"@ != "varchar"@) by { assert("json"@.len() != "varchar"@.len()); }
    assert("json"@ != "text"@) by { assert("json"@[0] != "text"@[0]); }
    assert("jsonb"@ != "int2"@) by { assert("jsonb"@.len() != "int2"@.len()); }
    assert("jsonb"@ != "int4"@) by { assert("jsonb"@.len() != "int4"@.len()); }
    assert("jsonb"@ != "int8"@) by { assert("jsonb"@.len() != "int8"@.len()); }
    assert("jsonb"@ != "float4"@) by { assert("jsonb"@.len() != "float4"@.len()); }
    assert("jsonb"@ != "float8"@) by { assert("jsonb"@.len() != "float8"@.len()); }
    assert("jsonb"@ != "numeric"@) by { assert("jsonb"@.len() != "numeric"@.len()); }
    assert("jsonb"@ != "decimal"@) by { assert("jsonb"@.len() != "decimal"@.len()); }
    assert("jsonb"@ != "char"@) by { assert("jsonb"@.len() != "char"@.len()); }
    assert("jsonb"@ != "bpchar"@) by { assert("jsonb"@.len() != "bpchar"@.len()); }
    assert("jsonb"@ != "varchar"@) by { assert("jsonb"@.len() != "varchar"@.len()); }
    assert("jsonb"@ != "text"@) by { assert("jsonb"@.len() != "text"@.len()); }
    assert("jsonb"@ != "json"@) by { assert("jsonb"@.len() != "json"@.len()); }
    assert("bytea"@ != "int2"@) by { assert("bytea"@.len() != "int2"@.len()); }
    assert("bytea"@ != "int4"@) by { assert("bytea"@.len() != "int4"@.len()); }
    assert("bytea"@ != "int8"@) by { assert("bytea"@.len() != "int8"@.len()); }
    assert("bytea"@ != "float4"@) by { assert("bytea"@.len() != "float4"@.len()); }
    assert("bytea"@ != "float8"@) by { assert("bytea"@.len() != "float8"@.len()); }
    assert("bytea"@ != "numeric"@) by { assert("bytea"@.len() != "numeric"@.len()); }
    assert("bytea"@ != "decimal"@) by { assert("bytea"@.len() != "decimal"@.len()); }
    assert("bytea"@ != "char"@) by { assert("bytea"@.len() != "char"@.len()); }
    assert("bytea"@ != "bpchar"@) by { assert("bytea"@.len() != "bpchar"@.len()); }
    assert("bytea"@ != "varchar"@) by { assert("bytea"@.len() != "varchar"@.len()); }
    assert("bytea"@ != "text"@) by { assert("bytea"@.len() != "text"@.len()); }
    assert("bytea"@ != "json"@) by { assert("bytea"@.len() != "json"@.len()); }
    assert("bytea"@ != "jsonb"@) by { assert("bytea"@[0] != "jsonb"@[0]); }
    assert("bool"@ != "int2"@) by { assert("bool"@[0] != "int2"@[0]); }
    assert("bool"@ != "int4"@) by { assert("bool"@[0] != "int4"@[0]); }
    assert("bool"@ != "int8"@) by { assert("bool"@[0] != "int8"@[0]); }
    assert("bool"@ != "float4"@) by { assert("bool"@.len() != "float4"@.len()); }
    assert("bool"@ != "float8"@) by { assert("bool"@.len() != "float8"@.len()); }
    assert("bool"@ != "numeric"@) by { assert("bool"@.len() != "numeric"@.len()); }
    assert("bool"@ != "decimal"@) by { assert("bool"@.len() != "decimal"@.len()); }
    assert("bool"@ != "char"@) by { assert("bool"@[0] != "char"@[0]); }
    assert("bool"@ != "bpchar"@) by { assert("bool"@.len() != "bpchar"@.len()); }
    assert("bool"@ != "varchar"@) by { assert("bool"@.len() != "varchar"@.len()); }
    assert("bool"@ != "text"@) by { assert("bool"@[0] != "text"@[0]); }
    assert("bool"@ != "json"@) by { assert("bool"@[0] != "json"@[0]); }
    assert("bool"@ != "jsonb"@) by { assert("bool"@.len() != "jsonb"@.len()); }
    assert("bool"@ != "bytea"@) by { assert("bool"@.len() != "bytea"@.len()); }
    assert("date"@ != "int2"@) by { assert("date"@[0] != "int2"@[0]); }
    assert("date"@ != "int4"@) by { assert("date"@[0] != "int4"@[0]); }
    assert("date"@ != "int8"@) by { assert("date"@[0] != "int8"@[0]); }
    assert("date"@ != "float4"@) by { assert("date"@.len() != "float4"@.len()); }
    assert("date"@ != "float8"@) by { assert("date"@.len() != "float8"@.len()); }
    assert("date"@ != "numeric"@) by { assert("date"@.len() != "numeric"@.len()); }
    assert("date"@ != "decimal"@) by { assert("date"@.len() != "decimal"@.len()); }
    assert("date"@ != "char"@) by { assert("date"@[0] != "char"@[0]); }
    assert("date"@ != "bpchar"@) by { assert("date"@.len() != "bpchar"@.len()); }
    assert("date"@ != "varchar"@) by { assert("date"@.len() != "varchar"@.len()); }
    assert("date"@ != "text"@) by { assert("date"@[0] != "text"@[0]); }
    assert("date"@ != "json"@) by { assert("date"@[0] != "json"@[0]); }
    assert("date"@ != "jsonb"@) by { assert("date"@.len() != "jsonb"@.len()); }
    assert("date"@ != "bytea"@) by { assert("date"@.len() != "bytea"@.len()); }
    assert("date"@ != "bool"@) by { assert("date"@[0] != "bool"@[0]); }
    assert("timestamp"@ != "int2"@) by { assert("timestamp"@.len() != "int2"@.len()); }
    assert("timestamp"@ != "int4"@) by { assert("timestamp"@.len() != "int4"@.len()); }
    assert("timestamp"@ != "int8"@) by { assert("timestamp"@.len() != "int8"@.len()); }
    assert("timestamp"@ != "float4"@) by { assert("timestamp"@.len() != "float4"@.len()); }
    assert("timestamp"@ != "float8"@) by { assert("timestamp"@.len() != "float8"@.len()); }
    assert("timestamp"@ != "numeric"@) by { assert("timestamp"@.len() != "numeric"@.len()); }
    assert("timestamp"@ != "decimal"@) by { assert("timestamp"@.len() != "decimal"@.len()); }
    assert("timestamp"@ != "char"@) by { assert("timestamp"@.len() != "char"@.len()); }
    assert("timestamp"@ != "bpchar"@) by { assert("timestamp"@.len() != "bpchar"@.len()); }
    assert("timestamp"@ != "varchar"@) by { assert("timestamp"@.len() != "varchar"@.len()); }
    assert("timestamp"@ != "text"@) by { assert("timestamp"@.len() != "text"@.len()); }
    assert("timestamp"@ != "json"@) by { assert("timestamp"@.len() != "json"@.len()); }
    assert("timestamp"@ != "jsonb"@) by { assert("timestamp"@.len() != "jsonb"@.len()); }
    assert("timestamp"@ != "bytea"@) by { assert("timestamp"@.len() != "bytea"@.len()); }
    assert("timestamp"@ != "bool"@) by { assert("timestamp"@.len() != "bool"@.len()); }
    assert("timestamp"@ != "date"@) by { assert("timestamp"@.len() != "date"@.len()); }
    assert("timestamptz"@ != "int2"@) by { assert("timestamptz"@.len() != "int2"@.len()); }
    assert("timestamptz"@ != "int4"@) by { assert("timestamptz"@.len() != "int4"@.len()); }
    assert("timestamptz"@ != "int8"@) by { assert("timestamptz"@.len() != "int8"@.len()); }
    assert("timestamptz"@ != "float4"@) by { assert("timestamptz"@.len() != "float4"@.len()); }
    assert("timestamptz"@ != "float8"@) by { assert("timestamptz"@.len() != "float8"@.len()); }
    assert("timestamptz"@ != "numeric"@) by { assert("timestamptz"@.len() != "numeric"@.len()); }
    assert("timestamptz"@ != "decimal"@) by { assert("timestamptz"@.len() != "decimal"@.len()); }
    assert("timestamptz"@ != "char"@) by { assert("timestamptz"@.len() != "char"@.len()); }
    assert("timestamptz"@ != "bpchar"@) by { assert("timestamptz"@.len() != "bpchar"@.len()); }
    assert("timestamptz"@ != "varchar"@) by { assert("timestamptz"@.len() != "varchar"@.len()); }
    assert("timestamptz"@ != "text"@) by { assert("timestamptz"@.len() != "text"@.len()); }
    assert("timestamptz"@ != "json"@) by { assert("timestamptz"@.len() != "json"@.len()); }
    assert("timestamptz"@ != "jsonb"@) by { assert("timestamptz"@.len() != "jsonb"@.len()); }
    assert("timestamptz"@ != "bytea"@) by { assert("timestamptz"@.len() != "bytea"@.len()); }
    assert("timestamptz"@ != "bool"@) by { assert("timestamptz"@.len() != "bool"@.len()); }
    assert("timestamptz"@ != "date"@) by { assert("timestamptz"@.len() != "date"@.len()); }
    assert("timestamptz"@ != "timestamp"@) by { assert("timestamptz"@.len() != "timestamp"@.len()); }
}

/// Every other native type, `time` and `uuid` among them, is kept as a
/// user-defined type of its own name.
pub proof fn lemma_other_native_types_are_user_defined(
    native: Seq<char>,
    char_len: Option<i32>,
    precision: Option<i32>,
    scale: Option<i32>,
)
    requires
        native != "int2"@ && native != "int4"@ && native != "int8"@ && native != "float4"@ && native != "float8"@ && native != "numeric"@ && native != "decimal"@ && native != "char"@ && native != "bpchar"@ && native != "varchar"@ && native != "text"@ && native != "json"@ && native != "jsonb"@ && native != "bytea"@ && native != "bool"@ && native != "date"@ && native != "timestamp"@ && native != "timestamptz"@,
    ensures
        generic_type_of(native, char_len, precision, scale) == GenericTypeView::UserDefined(native),
{
}

/// The mapping gives `Timestamp` only for `timestamp`, `TimestampTz` only
/// for `timestamptz`, and a user-defined type only for its own name.
pub proof fn lemma_native_type_results(
    native: Seq<char>,
    char_len: Option<i32>,
    precision: Option<i32>,
    scale: Option<i32>,
)
    ensures
        generic_type_of(native, char_len, precision, scale) == GenericTypeView::Timestamp ==> native
            == "timestamp"@,
        generic_type_of(native, char_len, precision, scale) == GenericTypeView::TimestampTz ==> native
            == "timestamptz"@,
        generic_type_of(native, char_len, precision, scale) matches GenericTypeView::UserDefined(n)
            ==> n == native,
{
}

/// The PostgreSQL type that each generic type is created with, by name.
pub proof fn lemma_native_type_names(n: usize, m: usize, name: Seq<char>)
    ensures
        native_type_of(GenericTypeView::TinyInt) == "int2"@,
        native_type_of(GenericTypeView::SmallInt) == "int2"@,
        native_type_of(GenericTypeView::Integer) == "int4"@,
        native_type_of(GenericTypeView::BigInt) == "int8"@,
        native_type_of(GenericTypeView::Float) == "float4"@,
        native_type_of(GenericTypeView::Double) == "float8"@,
        native_type_of(GenericTypeView::Decimal { precision: n, scale: m }) == "numeric"@,
        native_type_of(GenericTypeView::VarChar(n)) == "varchar"@,
        native_type_of(GenericTypeView::Char(n)) == "bpchar"@,
        native_type_of(GenericTypeView::Text) == "text"@,
        native_type_of(GenericTypeView::Json) == "json"@,
        native_type_of(GenericTypeView::Blob(n)) == "bytea"@,
        native_type_of(GenericTypeView::Uuid) == "uuid"@,
        native_type_of(GenericTypeView::Boolean) == "bool"@,
        native_type_of(GenericTypeView::Date) == "date"@,
        native_type_of(GenericTypeView::Timestamp) == "timestamp"@,
        native_type_of(GenericTypeView::TimestampTz) == "timestamptz"@,
        native_type_of(GenericTypeView::Time) == "time"@,
        native_type_of(GenericTypeView::Bit(n)) == "bit"@,
        native_type_of(GenericTypeView::VarBit(n)) == "varbit"@,
        native_type_of(GenericTypeView::UserDefined(name)) == "text"@,
{
}

/// The foreign key actions by their catalog names; any other name, in
/// another case too, is no action.
pub proof fn lemma_fk_action_names(action: Seq<char>)
    ensures
        fk_action_of("CASCADE"@) == ForeignKeyAction::Cascade,
        fk_action_of("SET NULL"@) == ForeignKeyAction::SetNull,
        fk_action_of("SET DEFAULT"@) == ForeignKeyAction::SetDefault,
        fk_action_of("RESTRICT"@) == ForeignKeyAction::Restrict,
        action != "CASCADE"@ && action != "SET NULL"@ && action != "SET DEFAULT"@ && action
            != "RESTRICT"@ ==> fk_action_of(action) == ForeignKeyAction::NoAction,
{
    reveal_strlit("CASCADE");
    reveal_strlit("SET NULL");
    reveal_strlit("SET DEFAULT");
    reveal_strlit("RESTRICT");
    assert("SET NULL"@ != "CASCADE"@) by { assert("SET NULL"@.len() != "CASCADE"@.len()); }
    assert("SET DEFAULT"@ != "CASCADE"@) by { assert("SET DEFAULT"@.len() != "CASCADE"@.len()); }
    assert("SET DEFAULT"@ != "SET NULL"@) by { assert("SET DEFAULT"@.len() != "SET NULL"@.len()); }
    assert("RESTRICT"@ != "CASCADE"@) by { assert("RESTRICT"@.len() != "CASCADE"@.len()); }
    assert("RESTRICT"@ != "SET NULL"@) by { assert("RESTRICT"@[0] != "SET NULL"@[0]); }
    assert("RESTRICT"@ != "SET DEFAULT"@) by { assert("RESTRICT"@.len() != "SET DEFAULT"@.len()); }
}

} // verus!
