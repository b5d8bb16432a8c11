use std::rc::Rc;
use vstd::prelude::*;

use crate::sqlz::types::{ForeignKeyAction, GenericType, GenericTypeView};
use crate::support::share;

verus! {

/// The primary key of a table: its name and its columns, in key order.
#[derive(Debug)]
pub struct PrimaryKeyConstraint {
    pub constraint_name: String,
    pub columns: Vec<Rc<Column>>,
}

/// The mathematical value of a primary key or unique constraint.
pub struct KeyView {
    pub name: Seq<char>,
    pub columns: Seq<Rc<Column>>,
}

impl View for PrimaryKeyConstraint {
    type V = KeyView;

    open spec fn view(&self) -> KeyView {
        KeyView { name: self.constraint_name@, columns: self.columns@ }
    }
}

pub enum ConstraintType {
    PrimaryKey(PrimaryKeyConstraint),
    Unique {
        constraint_name: String,
        columns: Vec<Rc<Column>>,
    },
    ForeignKey {
        constraint_name: String,
        source_column: Rc<Column>,
        referenced_table: String,
        referenced_column: Rc<Column>,
        on_update: ForeignKeyAction,
        on_delete: ForeignKeyAction,
    },
}

/// The mathematical value of a constraint.
pub enum ConstraintView {
    PrimaryKey(KeyView),
    Unique(KeyView),
    ForeignKey {
        name: Seq<char>,
        source_column: Rc<Column>,
        referenced_table: Seq<char>,
        referenced_column: Rc<Column>,
        on_update: ForeignKeyAction,
        on_delete: ForeignKeyAction,
    },
}

impl View for ConstraintType {
    type V = ConstraintView;

    open spec fn view(&self) -> ConstraintView {
        match self {
            ConstraintType::PrimaryKey(pk) => ConstraintView::PrimaryKey(pk@),
            ConstraintType::Unique { constraint_name, columns } => ConstraintView::Unique(
                KeyView { name: constraint_name@, columns: columns@ },
            ),
            ConstraintType::ForeignKey {
                constraint_name,
                source_column,
                referenced_table,
                referenced_column,
                on_update,
                on_delete,
            } => ConstraintView::ForeignKey {
                name: constraint_name@,
                source_column: *source_column,
                referenced_table: referenced_table@,
                referenced_column: *referenced_column,
                on_update: *on_update,
                on_delete: *on_delete,
            },
        }
    }
}

#[derive(Debug, Clone)]
pub struct Column {
    pub name: String,
    pub col_type: GenericType,
    pub native_type: String,
    pub is_nullable: bool,
    pub is_identity: bool,
    pub max_length: Option<i32>,
    pub numeric_precision: Option<i32>,
    pub numeric_scale: Option<i32>,
}

pub struct Table {
    pub name: String,
    pub schema: Option<String>,
    pub columns: Vec<Rc<Column>>,
    pub constraints: Vec<ConstraintType>,
}

/// The names of a sequence of columns, in order.
pub open spec fn column_names(columns: Seq<Rc<Column>>) -> Seq<Seq<char>> {
    columns.map_values(|c: Rc<Column>| c.name@)
}

/// The types of a sequence of columns, in order.
pub open spec fn column_types(columns: Seq<Rc<Column>>) -> Seq<GenericTypeView> {
    columns.map_values(|c: Rc<Column>| c.col_type@)
}

/// The storage width in bytes of an integer type, and 0 for any other type.
pub open spec fn integer_width(t: GenericTypeView) -> int {
    match t {
        GenericTypeView::TinyInt => 1,
        GenericTypeView::SmallInt => 2,
        GenericTypeView::Integer => 4,
        GenericTypeView::BigInt => 8,
        _ => 0,
    }
}

/// Whether every value of a column of type `source` fits, unchanged, into a
/// column of type `target`.
pub open spec fn type_widens_to(source: GenericTypeView, target: GenericTypeView) -> bool {
    ||| source == target
    ||| 0 < integer_width(source) <= integer_width(target)
    ||| source == GenericTypeView::Float && target == GenericTypeView::Double
    ||| target == GenericTypeView::Text && (source is VarChar || source is Char || source is Json
        || source is UserDefined)
    ||| (source matches GenericTypeView::VarChar(a) && target matches GenericTypeView::VarChar(b)
        && a <= b)
    ||| (source matches GenericTypeView::Char(a) && target matches GenericTypeView::Char(b) && a
        <= b)
    ||| (source matches GenericTypeView::Blob(a) && target matches GenericTypeView::Blob(b) && a
        <= b)
    ||| (source matches GenericTypeView::Bit(a) && target matches GenericTypeView::Bit(b) && a
        <= b)
    ||| (source matches GenericTypeView::VarBit(a) && target matches GenericTypeView::VarBit(b)
        && a <= b)
    ||| (source matches GenericTypeView::Decimal { precision: p1, scale: s1 }
        && target matches GenericTypeView::Decimal { precision: p2, scale: s2 } && p1 <= p2 && s1
        == s2)
}

/// Whether the rows of a table with columns of types `source` can be copied,
/// column by column, into a table with columns of types `target`.
pub open spec fn columns_migrate(source: Seq<GenericTypeView>, target: Seq<GenericTypeView>) -> bool {
    &&& source.len() <= target.len()
    &&& forall|i: int| 0 <= i < source.len() ==> type_widens_to(#[trigger] source[i], target[i])
}

/// Whether the constraint is a primary key.
pub open spec fn is_primary_key(c: ConstraintView) -> bool {
    c is PrimaryKey
}

impl Clone for PrimaryKeyConstraint {
    fn clone(&self) -> (r: Self)
        ensures
            r@ == self@,
    {
        let mut columns: Vec<Rc<Column>> = Vec::new();
        let mut i: usize = 0;
        while i < self.columns.len()
            invariant
                i <= self.columns.len(),
                columns@ == self.columns@.take(i as int),
            decreases self.columns.len() - i,
        {
            columns.push(share(&self.columns[i]));
            assert(self.columns@.take(i + 1) =~= self.columns@.take(i as int).push(self.columns@[i as int]));
            i += 1;
        }
        assert(self.columns@.take(self.columns@.len() as int) =~= self.columns@);
        PrimaryKeyConstraint { constraint_name: self.constraint_name.clone(), columns }
    }
}

/// Whether a column of type `source` can migrate into one of type `target`.
fn type_widens(source: &GenericType, target: &GenericType) -> (r: bool)
    ensures
        r == type_widens_to(source@, target@),
{
    match (source, target) {
        (
            GenericType::TinyInt,
            GenericType::TinyInt
            | GenericType::SmallInt
            | GenericType::Integer
            | GenericType::BigInt,
        ) => true,
        (
            GenericType::SmallInt,
            GenericType::SmallInt | GenericType::Integer | GenericType::BigInt,
        ) => true,
        (GenericType::Integer, GenericType::Integer | GenericType::BigInt) => true,
        (GenericType::BigInt, GenericType::BigInt) => true,
        // Floating point widening
        (GenericType::Float, GenericType::Float | GenericType::Double) => true,
        (GenericType::Double, GenericType::Double) => true,
        // Text accepts text and user-defined values
        (GenericType::Text | GenericType::UserDefined(_), GenericType::Text) => true,
        (GenericType::Json, GenericType::Text) => true,
        // Length-bounded strings
        (GenericType::VarChar(s1), GenericType::VarChar(s2)) if *s2 >= *s1 => true,
        (GenericType::Char(s1), GenericType::Char(s2)) if *s2 >= *s1 => true,
        // Fixed-size strings always fit into text
        (GenericType::VarChar(_) | GenericType::Char(_), GenericType::Text) => true,
        // Binary data and bit strings
        (GenericType::Blob(s1), GenericType::Blob(s2)) if *s2 >= *s1 => true,
        (GenericType::Bit(s1), GenericType::Bit(s2)) if *s2 >= *s1 => true,
        (GenericType::VarBit(s1), GenericType::VarBit(s2)) if *s2 >= *s1 => true,
        // Decimals keep their scale and may grow in precision
        (
            GenericType::Decimal { precision: p1, scale: s1 },
            GenericType::Decimal { precision: p2, scale: s2 },
        ) if *p2 >= *p1 && *s2 == *s1 => true,
        // Every other type only matches itself
        (t1, t2) if *t1 == *t2 => true,
        _ => false,
    }
}

impl Table {
    /// The types of the table's columns, in order.
    pub open spec fn column_types(&self) -> Seq<GenericTypeView> {
        column_types(self.columns@)
    }

    /// The table's constraints, as mathematical values.
    pub open spec fn constraint_views(&self) -> Seq<ConstraintView> {
        self.constraints@.map_values(|c: ConstraintType| c@)
    }

    /// The primary key: the first primary key constraint of the table.
    pub fn get_pk(&self) -> (r: Option<PrimaryKeyConstraint>)
        ensures
            match r {
                None => forall|i: int|
                    0 <= i < self.constraints@.len() ==> !is_primary_key(
                        #[trigger] self.constraint_views()[i],
                    ),
                Some(pk) => exists|i: int|
                    0 <= i < self.constraints@.len() && self.constraint_views()[i]
                        == ConstraintView::PrimaryKey(pk@) && forall|j: int|
                        0 <= j < i ==> !is_primary_key(#[trigger] self.constraint_views()[j]),
            },
    {
        let mut i: usize = 0;
        while i < self.constraints.len()
            invariant
                i <= self.constraints@.len(),
                forall|j: int| 0 <= j < i ==> !is_primary_key(#[trigger] self.constraint_views()[j]),
            decreases self.constraints.len() - i,
        {
            match &self.constraints[i] {
                ConstraintType::PrimaryKey(pk) => {
                    let r = pk.clone();
                    assert(self.constraint_views()[i as int] == ConstraintView::PrimaryKey(r@));
                    return Some(r);
                },
                _ => {},
            }
            i += 1;
        }
        None
    }

    /// Whether every row of this table can be copied into `other`: `other`
    /// has at least as many columns, and each column of this table widens to
    /// the column of `other` at the same position.
    pub fn can_migrate_to(&self, other: &Table) -> (r: bool)
        ensures
            r == columns_migrate(self.column_types(), other.column_types()),
    {
        if other.columns.len() < self.columns.len() {
            return false;
        }
        let mut i: usize = 0;
        while i < self.columns.len()
            invariant
                self.columns@.len() <= other.columns@.len(),
                i <= self.columns@.len(),
                forall|j: int|
                    0 <= j < i ==> type_widens_to(
                        #[trigger] self.column_types()[j],
                        other.column_types()[j],
                    ),
            decreases self.columns.len() - i,
        {
            if !type_widens(&self.columns[i].col_type, &other.columns[i].col_type) {
                assert(self.column_types()[i as int] == self.columns@[i as int].col_type@);
                assert(other.column_types()[i as int] == other.columns@[i as int].col_type@);
                return false;
            }
            i += 1;
        }
        true
    }
}

/// Widening is a partial order on column types: two types that widen to each
/// other are the same type.
pub proof fn lemma_type_widening_antisymmetric(source: GenericTypeView, target: GenericTypeView)
    requires
        type_widens_to(source, target),
        type_widens_to(target, source),
    ensures
        source == target,
{
}

/// Widening composes: a type that widens to a second type, which widens to a
/// third, widens to the third.
pub proof fn lemma_type_widening_transitive(
    a: GenericTypeView,
    b: GenericTypeView,
    c: GenericTypeView,
)
    requires
        type_widens_to(a, b),
        type_widens_to(b, c),
    ensures
        type_widens_to(a, c),
{
}

/// Every table can migrate to itself.
pub proof fn lemma_migrate_reflexive(table: &Table)
    ensures
        columns_migrate(table.column_types(), table.column_types()),
{
}

/// Migration composes: if `a` can migrate to `b` and `b` to `c`, then `a` can
/// migrate to `c`.
pub proof fn lemma_migrate_transitive(a: &Table, b: &Table, c: &Table)
    requires
        columns_migrate(a.column_types(), b.column_types()),
        columns_migrate(b.column_types(), c.column_types()),
    ensures
        columns_migrate(a.column_types(), c.column_types()),
{
    assert forall|i: int| 0 <= i < a.column_types().len() implies type_widens_to(
        #[trigger] a.column_types()[i],
        c.column_types()[i],
    ) by {
        lemma_type_widening_transitive(a.column_types()[i], b.column_types()[i], c.column_types()[i]);
    }
}

/// Two tables that can each migrate to the other have the same column types.
pub proof fn lemma_migrate_antisymmetric(a: &Table, b: &Table)
    requires
        columns_migrate(a.column_types(), b.column_types()),
        columns_migrate(b.column_types(), a.column_types()),
    ensures
        a.column_types() == b.column_types(),
{
    assert forall|i: int| 0 <= i < a.column_types().len() implies #[trigger] a.column_types()[i]
        == b.column_types()[i] by {
        lemma_type_widening_antisymmetric(a.column_types()[i], b.column_types()[i]);
    }
    assert(a.column_types() =~= b.column_types());
}

/// A length-bounded string, binary or bit column takes in only columns of its
/// own kind whose bound is at most its own: no other type widens to it, and
/// in particular no longer string and no string of the other kind.
pub proof fn lemma_widening_into_bounded_types(source: GenericTypeView, b: usize)
    ensures
        type_widens_to(source, GenericTypeView::VarChar(b)) <==> (source matches GenericTypeView::VarChar(
            a,
        ) && a <= b),
        type_widens_to(source, GenericTypeView::Char(b)) <==> (source matches GenericTypeView::Char(a)
            && a <= b),
        type_widens_to(source, GenericTypeView::Blob(b)) <==> (source matches GenericTypeView::Blob(a)
            && a <= b),
        type_widens_to(source, GenericTypeView::Bit(b)) <==> (source matches GenericTypeView::Bit(a)
            && a <= b),
        type_widens_to(source, GenericTypeView::VarBit(b)) <==> (source matches GenericTypeView::VarBit(
            a,
        ) && a <= b),
{
}

/// A text column takes in text, length-bounded strings, JSON and values of
/// user-defined types, and nothing else.
pub proof fn lemma_widening_into_text(source: GenericTypeView)
    ensures
        type_widens_to(source, GenericTypeView::Text) <==> (source is Text || source is VarChar
            || source is Char || source is Json || source is UserDefined),
{
}

/// An integer column takes in only integer columns no wider than itself, and
/// a column of any other type takes in no integer column.
pub proof fn lemma_widening_between_integers(source: GenericTypeView, target: GenericTypeView)
    ensures
        (target is TinyInt || target is SmallInt || target is Integer || target is BigInt) ==> (
        type_widens_to(source, target) <==> ((source is TinyInt || source is SmallInt
            || source is Integer || source is BigInt) && integer_width(source) <= integer_width(
            target,
        ))),
        (source is TinyInt || source is SmallInt || source is Integer || source is BigInt)
            && type_widens_to(source, target) ==> (target is TinyInt || target is SmallInt
            || target is Integer || target is BigInt),
        integer_width(GenericTypeView::TinyInt) < integer_width(GenericTypeView::SmallInt)
            < integer_width(GenericTypeView::Integer) < integer_width(GenericTypeView::BigInt),
{
}

/// A double column takes in floats and doubles; a float column only floats.
pub proof fn lemma_widening_into_floats(source: GenericTypeView)
    ensures
        type_widens_to(source, GenericTypeView::Double) <==> (source is Float || source is Double),
        type_widens_to(source, GenericTypeView::Float) <==> source is Float,
{
}

/// A decimal column takes in only decimals of the same scale and a precision
/// at most its own.
pub proof fn lemma_widening_into_decimals(source: GenericTypeView, precision: usize, scale: usize)
    ensures
        type_widens_to(source, GenericTypeView::Decimal { precision, scale }) <==> (source matches GenericTypeView::Decimal {
            precision: p,
            scale: s,
        } && p <= precision && s == scale),
{
}

/// Columns of the remaining types take in only columns of exactly their own
/// type.
pub proof fn lemma_widening_into_exact_types(source: GenericTypeView, target: GenericTypeView)
    requires
        target is Json || target is Uuid || target is Boolean || target is Date || target is Timestamp
            || target is TimestampTz || target is Time || target is UserDefined,
    ensures
        type_widens_to(source, target) <==> source == target,
{
}

/// A table migrates into another only if each of its columns fits the
/// bounded string column at the same position: a column that lands in a
/// `VarChar(b)` or `Char(b)` column is of that kind with a bound at most `b`.
pub proof fn lemma_migrate_respects_string_bounds(a: &Table, b: &Table, i: int)
    requires
        columns_migrate(a.column_types(), b.column_types()),
        0 <= i < a.column_types().len(),
    ensures
        b.column_types()[i] matches GenericTypeView::VarChar(m) ==> (a.column_types()[i] matches GenericTypeView::VarChar(
            n,
        ) && n <= m),
        b.column_types()[i] matches GenericTypeView::Char(m) ==> (a.column_types()[i] matches GenericTypeView::Char(
            n,
        ) && n <= m),
{
    assert(type_widens_to(a.column_types()[i], b.column_types()[i]));
}

/// A table migrates into another exactly when the other has at least as many
/// columns and every column widens to the one at the same position: a table
/// never migrates into one with fewer columns, and one column that does not
/// widen is enough to refuse.
pub proof fn lemma_migrate_column_by_column(source: Seq<GenericTypeView>, target: Seq<GenericTypeView>, i: int)
    ensures
        target.len() < source.len() ==> !columns_migrate(source, target),
        0 <= i < source.len() && i < target.len() && !type_widens_to(source[i], target[i])
            ==> !columns_migrate(source, target),
        source.len() <= target.len() && (forall|j: int|
            0 <= j < source.len() ==> type_widens_to(#[trigger] source[j], target[j]))
            ==> columns_migrate(source, target),
{
}

} // verus!
