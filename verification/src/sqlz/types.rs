use chrono::{NaiveDate, NaiveDateTime, NaiveTime};
use uuid::Uuid;
use vstd::prelude::*;
use vstd::std_specs::cmp::PartialEqSpecImpl;

verus! {

/// A database-independent column type.
#[derive(Debug, Clone)]
pub enum GenericType {
    // Fixed-size integer types
    TinyInt,  // 1 byte
    SmallInt, // 2 bytes
    Integer,  // 4 bytes
    BigInt,   // 8 bytes

    // Floating-point types
    Float,  // 4 bytes single precision
    Double, // 8 bytes double precision

    VarChar(usize),
    Char(usize),
    Text,
    Json,

    // Binary types
    Blob(usize),
    Uuid,

    Boolean,
    Date,
    Timestamp,
    TimestampTz,
    Time,

    // Bit strings of fixed and of varying length
    Bit(usize),
    VarBit(usize),

    Decimal { precision: usize, scale: usize },
    UserDefined(String),
}

/// The mathematical value of a `GenericType`: the same variants, with the name
/// of a user-defined type as a sequence of characters.
pub enum GenericTypeView {
    TinyInt,
    SmallInt,
    Integer,
    BigInt,
    Float,
    Double,
    VarChar(usize),
    Char(usize),
    Text,
    Json,
    Blob(usize),
    Uuid,
    Boolean,
    Date,
    Timestamp,
    TimestampTz,
    Time,
    Bit(usize),
    VarBit(usize),
    Decimal { precision: usize, scale: usize },
    UserDefined(Seq<char>),
}

impl View for GenericType {
    type V = GenericTypeView;

    open spec fn view(&self) -> GenericTypeView {
        match self {
            GenericType::TinyInt => GenericTypeView::TinyInt,
            GenericType::SmallInt => GenericTypeView::SmallInt,
            GenericType::Integer => GenericTypeView::Integer,
            GenericType::BigInt => GenericTypeView::BigInt,
            GenericType::Float => GenericTypeView::Float,
            GenericType::Double => GenericTypeView::Double,
            GenericType::VarChar(n) => GenericTypeView::VarChar(*n),
            GenericType::Char(n) => GenericTypeView::Char(*n),
            GenericType::Text => GenericTypeView::Text,
            GenericType::Json => GenericTypeView::Json,
            GenericType::Blob(n) => GenericTypeView::Blob(*n),
            GenericType::Uuid => GenericTypeView::Uuid,
            GenericType::Boolean => GenericTypeView::Boolean,
            GenericType::Date => GenericTypeView::Date,
            GenericType::Timestamp => GenericTypeView::Timestamp,
            GenericType::TimestampTz => GenericTypeView::TimestampTz,
            GenericType::Time => GenericTypeView::Time,
            GenericType::Bit(n) => GenericTypeView::Bit(*n),
            GenericType::VarBit(n) => GenericTypeView::VarBit(*n),
            GenericType::Decimal { precision, scale } => GenericTypeView::Decimal {
                precision: *precision,
                scale: *scale,
            },
            GenericType::UserDefined(name) => GenericTypeView::UserDefined(name@),
        }
    }
}

impl PartialEq for GenericType {
    fn eq(&self, other: &Self) -> (r: bool) {
        match (self, other) {
            (GenericType::TinyInt, GenericType::TinyInt) => true,
            (GenericType::SmallInt, GenericType::SmallInt) => true,
            (GenericType::Integer, GenericType::Integer) => true,
            (GenericType::BigInt, GenericType::BigInt) => true,
            (GenericType::Float, GenericType::Float) => true,
            (GenericType::Double, GenericType::Double) => true,
            (GenericType::VarChar(a), GenericType::VarChar(b)) => *a == *b,
            (GenericType::Char(a), GenericType::Char(b)) => *a == *b,
            (GenericType::Text, GenericType::Text) => true,
            (GenericType::Json, GenericType::Json) => true,
            (GenericType::Blob(a), GenericType::Blob(b)) => *a == *b,
            (GenericType::Uuid, GenericType::Uuid) => true,
            (GenericType::Boolean, GenericType::Boolean) => true,
            (GenericType::Date, GenericType::Date) => true,
            (GenericType::Timestamp, GenericType::Timestamp) => true,
            (GenericType::TimestampTz, GenericType::TimestampTz) => true,
            (GenericType::Time, GenericType::Time) => true,
            (GenericType::Bit(a), GenericType::Bit(b)) => *a == *b,
            (GenericType::VarBit(a), GenericType::VarBit(b)) => *a == *b,
            (
                GenericType::Decimal { precision: p1, scale: s1 },
                GenericType::Decimal { precision: p2, scale: s2 },
            ) => *p1 == *p2 && *s1 == *s2,
            (GenericType::UserDefined(a), GenericType::UserDefined(b)) => *a == *b,
            _ => false,
        }
    }
}

impl PartialEqSpecImpl for GenericType {
    open spec fn obeys_eq_spec() -> bool {
        true
    }

    open spec fn eq_spec(&self, other: &GenericType) -> bool {
        self@ == other@
    }
}

impl Eq for GenericType {
}

/// What a foreign key does when the row it references is updated or deleted.
#[derive(Debug, Clone, Copy, PartialEq, Eq, Structural)]
pub enum ForeignKeyAction {
    NoAction,
    Restrict,
    SetNull,
    SetDefault,
    Cascade,
}

/// The outside type `chrono::NaiveDate`, which values carry through unread.
#[verifier::external_type_specification]
#[verifier::external_body]
pub struct ExNaiveDate(chrono::NaiveDate);

/// The outside type `chrono::NaiveDateTime`, which values carry through unread.
#[verifier::external_type_specification]
#[verifier::external_body]
pub struct ExNaiveDateTime(chrono::NaiveDateTime);

/// The outside type `chrono::NaiveTime`, which values carry through unread.
#[verifier::external_type_specification]
#[verifier::external_body]
pub struct ExNaiveTime(chrono::NaiveTime);

/// The outside type `uuid::Uuid`, which values carry through unread.
#[verifier::external_type_specification]
#[verifier::external_body]
pub struct ExUuid(uuid::Uuid);

/// A single value of a row, in a database-independent form.
#[derive(Debug)]
pub enum SqlzValue {
    Null,
    Bool(bool),
    TinyInt(i8),
    SmallInt(i16),
    Integer(i32),
    BigInt(i64),
    /// A single-precision float, by its IEEE 754 bit pattern.
    Float(u32),
    /// A double-precision float, by its IEEE 754 bit pattern.
    Double(u64),
    /// A decimal number in text form, so that no precision is lost.
    Decimal(String),
    Char(String),
    VarChar(String),
    Text(String),
    Json(String),
    Date(NaiveDate),
    Timestamp(NaiveDateTime),
    /// A point in time, as its date and time in UTC.
    TimestampTz(NaiveDateTime),
    Time(NaiveTime),
    Blob(Vec<u8>),
    Uuid(Uuid),
}

/// The mathematical value of a `SqlzValue`.
pub enum SqlzValueView {
    Null,
    Bool(bool),
    TinyInt(i8),
    SmallInt(i16),
    Integer(i32),
    BigInt(i64),
    Float(u32),
    Double(u64),
    Decimal(Seq<char>),
    Char(Seq<char>),
    VarChar(Seq<char>),
    Text(Seq<char>),
    Json(Seq<char>),
    Date(NaiveDate),
    Timestamp(NaiveDateTime),
    TimestampTz(NaiveDateTime),
    Time(NaiveTime),
    Blob(Seq<u8>),
    Uuid(Uuid),
}

impl View for SqlzValue {
    type V = SqlzValueView;

    open spec fn view(&self) -> SqlzValueView {
        match self {
            SqlzValue::Null => SqlzValueView::Null,
            SqlzValue::Bool(v) => SqlzValueView::Bool(*v),
            SqlzValue::TinyInt(v) => SqlzValueView::TinyInt(*v),
            SqlzValue::SmallInt(v) => SqlzValueView::SmallInt(*v),
            SqlzValue::Integer(v) => SqlzValueView::Integer(*v),
            SqlzValue::BigInt(v) => SqlzValueView::BigInt(*v),
            SqlzValue::Float(v) => SqlzValueView::Float(*v),
            SqlzValue::Double(v) => SqlzValueView::Double(*v),
            SqlzValue::Decimal(v) => SqlzValueView::Decimal(v@),
            SqlzValue::Char(v) => SqlzValueView::Char(v@),
            SqlzValue::VarChar(v) => SqlzValueView::VarChar(v@),
            SqlzValue::Text(v) => SqlzValueView::Text(v@),
            SqlzValue::Json(v) => SqlzValueView::Json(v@),
            SqlzValue::Date(v) => SqlzValueView::Date(*v),
            SqlzValue::Timestamp(v) => SqlzValueView::Timestamp(*v),
            SqlzValue::TimestampTz(v) => SqlzValueView::TimestampTz(*v),
            SqlzValue::Time(v) => SqlzValueView::Time(*v),
            SqlzValue::Blob(v) => SqlzValueView::Blob(v@),
            SqlzValue::Uuid(v) => SqlzValueView::Uuid(*v),
        }
    }
}

impl Clone for SqlzValue {
    fn clone(&self) -> (r: Self)
        ensures
            r@ == self@,
    {
        match self {
            SqlzValue::Null => SqlzValue::Null,
            SqlzValue::Bool(v) => SqlzValue::Bool(*v),
            SqlzValue::TinyInt(v) => SqlzValue::TinyInt(*v),
            SqlzValue::SmallInt(v) => SqlzValue::SmallInt(*v),
            SqlzValue::Integer(v) => SqlzValue::Integer(*v),
            SqlzValue::BigInt(v) => SqlzValue::BigInt(*v),
            SqlzValue::Float(v) => SqlzValue::Float(*v),
            SqlzValue::Double(v) => SqlzValue::Double(*v),
            SqlzValue::Decimal(v) => SqlzValue::Decimal(v.clone()),
            SqlzValue::Char(v) => SqlzValue::Char(v.clone()),
            SqlzValue::VarChar(v) => SqlzValue::VarChar(v.clone()),
            SqlzValue::Text(v) => SqlzValue::Text(v.clone()),
            SqlzValue::Json(v) => SqlzValue::Json(v.clone()),
            SqlzValue::Date(v) => SqlzValue::Date(*v),
            SqlzValue::Timestamp(v) => SqlzValue::Timestamp(*v),
            SqlzValue::TimestampTz(v) => SqlzValue::TimestampTz(*v),
            SqlzValue::Time(v) => SqlzValue::Time(*v),
            SqlzValue::Blob(v) => {
                let b = v.clone();
                assert(b@ =~= v@);
                SqlzValue::Blob(b)
            },
            SqlzValue::Uuid(v) => SqlzValue::Uuid(*v),
        }
    }
}

} // verus!
