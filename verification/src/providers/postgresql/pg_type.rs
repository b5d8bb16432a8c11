use postgres::types::Type;
use vstd::prelude::*;

verus! {

/// The built-in PostgreSQL types that the provider maps to and from
/// `GenericType`.
#[derive(Debug, Clone, Copy, PartialEq, Eq, Structural)]
pub enum PgType {
    Int2,
    Int4,
    Int8,
    Float4,
    Float8,
    Numeric,
    Char,
    Bpchar,
    Varchar,
    Text,
    Json,
    Jsonb,
    Bytea,
    Bool,
    Date,
    Timestamp,
    Timestamptz,
    Uuid,
    Time,
    Bit,
    Varbit,
}

/// The name of a built-in type in the `pg_catalog` schema.
pub open spec fn pg_type_name(t: PgType) -> Seq<char> {
    match t {
        PgType::Int2 => "int2"@,
        PgType::Int4 => "int4"@,
        PgType::Int8 => "int8"@,
        PgType::Float4 => "float4"@,
        PgType::Float8 => "float8"@,
        PgType::Numeric => "numeric"@,
        PgType::Char => "char"@,
        PgType::Bpchar => "bpchar"@,
        PgType::Varchar => "varchar"@,
        PgType::Text => "text"@,
        PgType::Json => "json"@,
        PgType::Jsonb => "jsonb"@,
        PgType::Bytea => "bytea"@,
        PgType::Bool => "bool"@,
        PgType::Date => "date"@,
        PgType::Timestamp => "timestamp"@,
        PgType::Timestamptz => "timestamptz"@,
        PgType::Uuid => "uuid"@,
        PgType::Time => "time"@,
        PgType::Bit => "bit"@,
        PgType::Varbit => "varbit"@,
    }
}

/// `postgres::types::Type::name` of the built-in type that `t` stands for
/// (`Type::INT2` for `PgType::Int2`, and so on). The crate's generated type
/// table gives each built-in type its `pg_catalog` name, which is what
/// `pg_type_name` lists.
#[verifier::external_body]
pub fn catalog_name(t: PgType) -> (name: String)
    ensures
        name@ == pg_type_name(t),
{
    let ty = match t {
        PgType::Int2 => Type::INT2, PgType::Int4 => Type::INT4, PgType::Int8 => Type::INT8,
        PgType::Float4 => Type::FLOAT4, PgType::Float8 => Type::FLOAT8,
        PgType::Numeric => Type::NUMERIC, PgType::Char => Type::CHAR,
        PgType::Bpchar => Type::BPCHAR, PgType::Varchar => Type::VARCHAR,
        PgType::Text => Type::TEXT, PgType::Json => Type::JSON, PgType::Jsonb => Type::JSONB,
        PgType::Bytea => Type::BYTEA, PgType::Bool => Type::BOOL, PgType::Date => Type::DATE,
        PgType::Timestamp => Type::TIMESTAMP, PgType::Timestamptz => Type::TIMESTAMPTZ,
        PgType::Uuid => Type::UUID, PgType::Time => Type::TIME, PgType::Bit => Type::BIT,
        PgType::Varbit => Type::VARBIT,
    };
    ty.name().to_string()
}

} // verus!
