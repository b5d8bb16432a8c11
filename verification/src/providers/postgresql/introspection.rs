use std::rc::Rc;
use vstd::prelude::*;

use crate::providers::postgresql::constants;
use crate::providers::postgresql::helper::{
    fk_action_of, generic_type_of, map_fk_action, map_native_type_to_sqlz,
};
use crate::providers::postgresql::lookup::{
    build_column_lookup, lemma_lookup_of_same_columns, lookup_of_tables, ColumnKey, ColumnLookup,
};
use crate::sqlz::schema::{
    column_names, Column, ConstraintType, ConstraintView, KeyView, PrimaryKeyConstraint, Table,
};
use crate::support::{is_first_named, lemma_first_named_unique, share, str_eq};

verus! {

/// What the catalog says of one column of a table.
pub struct ColumnRow {
    pub column_name: String,
    pub data_type: String,
    pub udt_name: String,
    pub character_maximum_length: Option<i32>,
    pub numeric_precision: Option<i32>,
    pub numeric_scale: Option<i32>,
    pub is_nullable: String,
    pub is_identity: String,
}

/// Whether a native type carries a precision and a scale.
pub open spec fn is_precision_type(native: Seq<char>) -> bool {
    native == constants::NATIVE_TYPE_NUMERIC@ || native == constants::NATIVE_TYPE_DECIMAL@
}

/// Whether `column` is the column that `row` describes.
pub open spec fn describes(row: &ColumnRow, column: &Column) -> bool {
    &&& column.name@ == row.column_name@
    &&& column.col_type@ == generic_type_of(
        row.udt_name@,
        row.character_maximum_length,
        row.numeric_precision,
        row.numeric_scale,
    )
    &&& column.native_type@ == row.udt_name@
    &&& column.is_nullable == (row.is_nullable@ == constants::FLAG_YES@)
    &&& column.is_identity == (row.is_identity@ == constants::FLAG_YES@)
    &&& column.max_length == row.character_maximum_length
    &&& column.numeric_precision == if is_precision_type(row.udt_name@) {
        row.numeric_precision
    } else {
        None
    }
    &&& column.numeric_scale == if is_precision_type(row.udt_name@) {
        row.numeric_scale
    } else {
        None
    }
}

/// The column that a catalog row describes.
pub fn column_from_row(row: &ColumnRow) -> (column: Column)
    ensures
        describes(row, &column),
{
    let col_type = map_native_type_to_sqlz(
        row.data_type.as_str(),
        row.udt_name.as_str(),
        row.character_maximum_length,
        row.numeric_precision,
        row.numeric_scale,
    );
    let mut numeric_precision = row.numeric_precision;
    let mut numeric_scale = row.numeric_scale;
    if !(str_eq(row.udt_name.as_str(), constants::NATIVE_TYPE_NUMERIC) || str_eq(
        row.udt_name.as_str(),
        constants::NATIVE_TYPE_DECIMAL,
    )) {
        numeric_precision = None;
        numeric_scale = None;
    }
    Column {
        name: row.column_name.clone(),
        is_nullable: str_eq(row.is_nullable.as_str(), constants::FLAG_YES),
        col_type,
        native_type: row.udt_name.clone(),
        is_identity: str_eq(row.is_identity.as_str(), constants::FLAG_YES),
        max_length: row.character_maximum_length,
        numeric_precision,
        numeric_scale,
    }
}

/// A table of the given schema and name, without constraints, whose columns
/// are those that `rows` describe, in order.
pub fn table_from_column_rows(schema_name: String, table_name: String, rows: &Vec<ColumnRow>) -> (table:
    Table)
    ensures
        table.name == table_name,
        table.schema == Some(schema_name),
        table.columns@.len() == rows@.len(),
        forall|i: int| 0 <= i < rows@.len() ==> describes(&rows@[i], &*#[trigger] table.columns@[i]),
        table.constraints@.len() == 0,
{
    let mut table = Table {
        schema: Some(schema_name),
        name: table_name,
        columns: Vec::new(),
        constraints: Vec::new(),
    };
    let mut i: usize = 0;
    while i < rows.len()
        invariant
            i <= rows@.len(),
            table.name == table_name,
            table.schema == Some(schema_name),
            table.columns@.len() == i,
            forall|j: int| 0 <= j < i ==> describes(&rows@[j], &*#[trigger] table.columns@[j]),
            table.constraints@.len() == 0,
        decreases rows.len() - i,
    {
        table.columns.push(Rc::new(column_from_row(&rows[i])));
        i += 1;
    }
    table
}

/// The position of the first column called `name`, if there is one.
pub fn find_column(columns: &Vec<Rc<Column>>, name: &str) -> (r: Option<usize>)
    ensures
        match r {
            Some(i) => is_first_named(column_names(columns@), name@, i as int),
            None => forall|i: int| 0 <= i < columns@.len() ==> #[trigger] column_names(columns@)[i] != name@,
        },
{
    let mut i: usize = 0;
    while i < columns.len()
        invariant
            i <= columns@.len(),
            forall|j: int| 0 <= j < i ==> #[trigger] column_names(columns@)[j] != name@,
        decreases columns.len() - i,
    {
        if str_eq(columns[i].name.as_str(), name) {
            return Some(i);
        }
        i += 1;
    }
    None
}

/// One row of the constraint query: a column that takes part in a
/// constraint of a table.
pub struct ConstraintRow {
    pub constraint_name: String,
    pub constraint_type: String,
    pub column_name: String,
}

/// Whether `k` is the position of the first primary key constraint.
pub open spec fn is_first_primary_key(cs: Seq<ConstraintView>, k: int) -> bool {
    &&& 0 <= k < cs.len()
    &&& cs[k] is PrimaryKey
    &&& forall|j: int| 0 <= j < k ==> !(#[trigger] cs[j] is PrimaryKey)
}

/// Whether the constraint is a unique constraint called `name`.
pub open spec fn is_unique_named(c: ConstraintView, name: Seq<char>) -> bool {
    c matches ConstraintView::Unique(key) && key.name == name
}

/// Whether `k` is the position of the first unique constraint called `name`.
pub open spec fn is_first_unique_named(cs: Seq<ConstraintView>, name: Seq<char>, k: int) -> bool {
    &&& 0 <= k < cs.len()
    &&& is_unique_named(cs[k], name)
    &&& forall|j: int| 0 <= j < k ==> !is_unique_named(#[trigger] cs[j], name)
}

/// A key constraint with `column` appended to its columns.
pub open spec fn with_column(c: ConstraintView, column: Rc<Column>) -> ConstraintView {
    match c {
        ConstraintView::PrimaryKey(key) => ConstraintView::PrimaryKey(
            KeyView { name: key.name, columns: key.columns.push(column) },
        ),
        ConstraintView::Unique(key) => ConstraintView::Unique(
            KeyView { name: key.name, columns: key.columns.push(column) },
        ),
        _ => c,
    }
}

/// The constraints of a table with columns `columns` once the constraint row
/// (`name`, `kind`, `column_name`) is taken in: the first column of that name
/// joins the table's primary key (the first one, or a new one), or the first
/// unique constraint of that name (or a new one). A row whose column the
/// table lacks, or whose kind is neither, changes nothing.
pub open spec fn constraints_after_row(
    cs: Seq<ConstraintView>,
    columns: Seq<Rc<Column>>,
    name: Seq<char>,
    kind: Seq<char>,
    column_name: Seq<char>,
) -> Seq<ConstraintView> {
    if exists|i: int| is_first_named(column_names(columns), column_name, i) {
        let column = columns[choose|i: int| is_first_named(column_names(columns), column_name, i)];
        if kind == constants::CONSTRAINT_PK@ {
            if exists|k: int| is_first_primary_key(cs, k) {
                let k = choose|k: int| is_first_primary_key(cs, k);
                cs.update(k, with_column(cs[k], column))
            } else {
                cs.push(ConstraintView::PrimaryKey(KeyView { name, columns: seq![column] }))
            }
        } else if kind == constants::CONSTRAINT_UNIQUE@ {
            if exists|k: int| is_first_unique_named(cs, name, k) {
                let k = choose|k: int| is_first_unique_named(cs, name, k);
                cs.update(k, with_column(cs[k], column))
            } else {
                cs.push(ConstraintView::Unique(KeyView { name, columns: seq![column] }))
            }
        } else {
            cs
        }
    } else {
        cs
    }
}

/// The first position of a primary key is unique.
proof fn lemma_first_primary_key_unique(cs: Seq<ConstraintView>, k: int)
    requires
        is_first_primary_key(cs, k),
    ensures
        forall|m: int| is_first_primary_key(cs, m) ==> m == k,
{
    assert forall|m: int| is_first_primary_key(cs, m) implies m == k by {
        if m < k {
            assert(!(cs[m] is PrimaryKey));
        } else if m > k {
            assert(!(cs[k] is PrimaryKey));
        }
    }
}

/// The first position of a unique constraint of a given name is unique.
proof fn lemma_first_unique_named_unique(cs: Seq<ConstraintView>, name: Seq<char>, k: int)
    requires
        is_first_unique_named(cs, name, k),
    ensures
        forall|m: int| is_first_unique_named(cs, name, m) ==> m == k,
{
    assert forall|m: int| is_first_unique_named(cs, name, m) implies m == k by {
        if m < k {
            assert(!is_unique_named(cs[m], name));
        } else if m > k {
            assert(!is_unique_named(cs[k], name));
        }
    }
}

/// The position of the first primary key constraint, if there is one.
fn find_primary_key(constraints: &Vec<ConstraintType>) -> (r: Option<usize>)
    ensures
        match r {
            Some(k) => is_first_primary_key(constraints@.map_values(|c: ConstraintType| c@), k as int),
            None => forall|k: int|
                0 <= k < constraints@.len() ==> !(#[trigger] constraints@[k]@ is PrimaryKey),
        },
{
    let ghost cs = constraints@.map_values(|c: ConstraintType| c@);
    let mut i: usize = 0;
    while i < constraints.len()
        invariant
            i <= constraints@.len(),
            cs == constraints@.map_values(|c: ConstraintType| c@),
            forall|j: int| 0 <= j < i ==> !(#[trigger] constraints@[j]@ is PrimaryKey),
        decreases constraints.len() - i,
    {
        if let ConstraintType::PrimaryKey(_) = &constraints[i] {
            assert forall|j: int| 0 <= j < i implies !(#[trigger] cs[j] is PrimaryKey) by {
                assert(cs[j] == constraints@[j]@);
            }
            return Some(i);
        }
        i += 1;
    }
    None
}

/// The position of the first unique constraint called `name`, if there is
/// one.
fn find_unique(constraints: &Vec<ConstraintType>, name: &str) -> (r: Option<usize>)
    ensures
        match r {
            Some(k) => is_first_unique_named(
                constraints@.map_values(|c: ConstraintType| c@),
                name@,
                k as int,
            ),
            None => forall|k: int|
                0 <= k < constraints@.len() ==> !is_unique_named(#[trigger] constraints@[k]@, name@),
        },
{
    let ghost cs = constraints@.map_values(|c: ConstraintType| c@);
    let mut i: usize = 0;
    while i < constraints.len()
        invariant
            i <= constraints@.len(),
            cs == constraints@.map_values(|c: ConstraintType| c@),
            forall|j: int| 0 <= j < i ==> !is_unique_named(#[trigger] constraints@[j]@, name@),
        decreases constraints.len() - i,
    {
        if let ConstraintType::Unique { constraint_name, .. } = &constraints[i] {
            if str_eq(constraint_name.as_str(), name) {
                assert forall|j: int| 0 <= j < i implies !is_unique_named(#[trigger] cs[j], name@) by {
                    assert(cs[j] == constraints@[j]@);
                }
                return Some(i);
            }
        }
        i += 1;
    }
    None
}

/// The constraint with `column` appended to its columns, when it is a key.
fn add_column(c: ConstraintType, column: Rc<Column>) -> (r: ConstraintType)
    ensures
        r@ == with_column(c@, column),
{
    match c {
        ConstraintType::PrimaryKey(mut pk) => {
            pk.columns.push(column);
            ConstraintType::PrimaryKey(pk)
        },
        ConstraintType::Unique { constraint_name, mut columns } => {
            columns.push(column);
            ConstraintType::Unique { constraint_name, columns }
        },
        other => other,
    }
}

/// Takes a row of the constraint query into the table's constraints.
pub fn apply_constraint_row(table: &mut Table, row: &ConstraintRow)
    ensures
        final(table).name == old(table).name,
        final(table).schema == old(table).schema,
        final(table).columns == old(table).columns,
        final(table).constraint_views() == constraints_after_row(
            old(table).constraint_views(),
            old(table).columns@,
            row.constraint_name@,
            row.constraint_type@,
            row.column_name@,
        ),
{
    let ghost cs = table.constraint_views();
    let found = find_column(&table.columns, row.column_name.as_str());
    let ci = match found {
        Some(ci) => ci,
        None => {
            return ;
        },
    };
    proof {
        lemma_first_named_unique(column_names(table.columns@), row.column_name@, ci as int);
    }
    let column = share(&table.columns[ci]);
    let ghost name = row.constraint_name@;
    if str_eq(row.constraint_type.as_str(), constants::CONSTRAINT_PK) {
        match find_primary_key(&table.constraints) {
            Some(k) => {
                proof {
                    lemma_first_primary_key_unique(cs, k as int);
                }
                let c = table.constraints.remove(k);
                let c = add_column(c, column);
                table.constraints.insert(k, c);
                assert(table.constraint_views() =~= cs.update(k as int, with_column(cs[k as int], column)));
            },
            None => {
                let mut columns = Vec::new();
                columns.push(column);
                assert(columns@ =~= seq![column]);
                table.constraints.push(
                    ConstraintType::PrimaryKey(
                        PrimaryKeyConstraint { constraint_name: row.constraint_name.clone(), columns },
                    ),
                );
                assert(table.constraint_views() =~= cs.push(
                    ConstraintView::PrimaryKey(KeyView { name, columns: seq![column] }),
                ));
            },
        }
    } else if str_eq(row.constraint_type.as_str(), constants::CONSTRAINT_UNIQUE) {
        match find_unique(&table.constraints, row.constraint_name.as_str()) {
            Some(k) => {
                proof {
                    lemma_first_unique_named_unique(cs, row.constraint_name@, k as int);
                }
                let c = table.constraints.remove(k);
                let c = add_column(c, column);
                table.constraints.insert(k, c);
                assert(table.constraint_views() =~= cs.update(k as int, with_column(cs[k as int], column)));
            },
            None => {
                let mut columns = Vec::new();
                columns.push(column);
                assert(columns@ =~= seq![column]);
                table.constraints.push(
                    ConstraintType::Unique { constraint_name: row.constraint_name.clone(), columns },
                );
                assert(table.constraint_views() =~= cs.push(
                    ConstraintView::Unique(KeyView { name, columns: seq![column] }),
                ));
            },
        }
    }
}

/// Whether a table's constraints hold at most one primary key, and no two
/// unique constraints of the same name.
pub open spec fn constraints_well_formed(cs: Seq<ConstraintView>) -> bool {
    &&& forall|i: int, j: int|
        0 <= i < cs.len() && 0 <= j < cs.len() && #[trigger] cs[i] is PrimaryKey
            && #[trigger] cs[j] is PrimaryKey ==> i == j
    &&& forall|i: int, j: int|
        0 <= i < cs.len() && 0 <= j < cs.len() && (#[trigger] cs[i] matches ConstraintView::Unique(a)
            && #[trigger] cs[j] matches ConstraintView::Unique(b) && a.name == b.name) ==> i == j
}

/// A table with a primary key has a first one.
proof fn lemma_primary_key_has_first(cs: Seq<ConstraintView>, k: int)
    requires
        0 <= k < cs.len(),
        cs[k] is PrimaryKey,
    ensures
        exists|m: int| is_first_primary_key(cs, m),
    decreases k,
{
    if exists|j: int| 0 <= j < k && #[trigger] cs[j] is PrimaryKey {
        let j = choose|j: int| 0 <= j < k && #[trigger] cs[j] is PrimaryKey;
        lemma_primary_key_has_first(cs, j);
    } else {
        assert(is_first_primary_key(cs, k));
    }
}

/// A table with a unique constraint of a given name has a first one.
proof fn lemma_unique_has_first(cs: Seq<ConstraintView>, name: Seq<char>, k: int)
    requires
        0 <= k < cs.len(),
        is_unique_named(cs[k], name),
    ensures
        exists|m: int| is_first_unique_named(cs, name, m),
    decreases k,
{
    if exists|j: int| 0 <= j < k && is_unique_named(#[trigger] cs[j], name) {
        let j = choose|j: int| 0 <= j < k && is_unique_named(#[trigger] cs[j], name);
        lemma_unique_has_first(cs, name, j);
    } else {
        assert(is_first_unique_named(cs, name, k));
    }
}

/// Taking in a constraint row keeps the constraints well formed: a table
/// never gets a second primary key, nor two unique constraints of one name.
pub proof fn lemma_constraint_row_keeps_well_formed(
    cs: Seq<ConstraintView>,
    columns: Seq<Rc<Column>>,
    name: Seq<char>,
    kind: Seq<char>,
    column_name: Seq<char>,
)
    requires
        constraints_well_formed(cs),
    ensures
        constraints_well_formed(constraints_after_row(cs, columns, name, kind, column_name)),
{
    let r = constraints_after_row(cs, columns, name, kind, column_name);
    if exists|i: int| is_first_named(column_names(columns), column_name, i) {
        if kind == constants::CONSTRAINT_PK@ {
            if !exists|k: int| is_first_primary_key(cs, k) {
                assert forall|k: int| 0 <= k < cs.len() implies !(#[trigger] cs[k] is PrimaryKey) by {
                    if cs[k] is PrimaryKey {
                        lemma_primary_key_has_first(cs, k);
                    }
                }
                assert forall|i: int, j: int|
                    0 <= i < r.len() && 0 <= j < r.len() && (#[trigger] r[i] matches ConstraintView::Unique(a)
                        && #[trigger] r[j] matches ConstraintView::Unique(b) && a.name == b.name) implies i == j by {
                    assert(r[i] == cs[i] && r[j] == cs[j]);
                }
            }
        } else if kind == constants::CONSTRAINT_UNIQUE@ {
            if !exists|k: int| is_first_unique_named(cs, name, k) {
                assert forall|k: int| 0 <= k < cs.len() implies !is_unique_named(#[trigger] cs[k], name) by {
                    if is_unique_named(cs[k], name) {
                        lemma_unique_has_first(cs, name, k);
                    }
                }
                assert forall|i: int, j: int|
                    0 <= i < r.len() && 0 <= j < r.len() && #[trigger] r[i] is PrimaryKey
                        && #[trigger] r[j] is PrimaryKey implies i == j by {
                    assert(r[i] == cs[i] && r[j] == cs[j]);
                }
                assert forall|i: int, j: int|
                    0 <= i < r.len() && 0 <= j < r.len() && (#[trigger] r[i] matches ConstraintView::Unique(a)
                        && #[trigger] r[j] matches ConstraintView::Unique(b) && a.name == b.name) implies i == j by {
                    if i < cs.len() && j < cs.len() {
                        assert(r[i] == cs[i] && r[j] == cs[j]);
                    } else if i < cs.len() {
                        assert(is_unique_named(cs[i], name));
                    } else if j < cs.len() {
                        assert(is_unique_named(cs[j], name));
                    }
                }
            }
        }
    }
}

/// One row of the foreign key query: a column of the table that references a
/// column of a table, maybe another one.
pub struct ForeignKeyRow {
    pub constraint_name: String,
    pub column_name: String,
    pub foreign_table_schema: String,
    pub foreign_table_name: String,
    pub foreign_column_name: String,
    pub on_update: String,
    pub on_delete: String,
}

/// The constraints of a table with columns `columns` once the foreign key
/// row is taken in: when the table has a column of the row's name and
/// `lookup` has the referenced column, a foreign key from the first column
/// of that name to it is added last; otherwise nothing changes.
pub open spec fn constraints_after_fk_row(
    cs: Seq<ConstraintView>,
    columns: Seq<Rc<Column>>,
    row: ForeignKeyRow,
    lookup: Map<ColumnKey, Rc<Column>>,
) -> Seq<ConstraintView> {
    let key = (row.foreign_table_schema@, row.foreign_table_name@, row.foreign_column_name@);
    if (exists|i: int| is_first_named(column_names(columns), row.column_name@, i))
        && lookup.contains_key(key) {
        let i = choose|i: int| is_first_named(column_names(columns), row.column_name@, i);
        cs.push(
            ConstraintView::ForeignKey {
                name: row.constraint_name@,
                source_column: columns[i],
                referenced_table: row.foreign_table_name@,
                referenced_column: lookup[key],
                on_update: fk_action_of(row.on_update@),
                on_delete: fk_action_of(row.on_delete@),
            },
        )
    } else {
        cs
    }
}

/// Takes a row of the foreign key query into the table's constraints.
pub fn apply_foreign_key_row(table: &mut Table, row: &ForeignKeyRow, lookup: &ColumnLookup)
    ensures
        final(table).name == old(table).name,
        final(table).schema == old(table).schema,
        final(table).columns == old(table).columns,
        final(table).constraint_views() == constraints_after_fk_row(
            old(table).constraint_views(),
            old(table).columns@,
            *row,
            lookup@,
        ),
{
    let ghost cs = table.constraint_views();
    let source = find_column(&table.columns, row.column_name.as_str());
    let target = lookup.get(
        row.foreign_table_schema.as_str(),
        row.foreign_table_name.as_str(),
        row.foreign_column_name.as_str(),
    );
    if let (Some(si), Some(referenced_column)) = (source, target) {
        proof {
            lemma_first_named_unique(column_names(table.columns@), row.column_name@, si as int);
        }
        let c = ConstraintType::ForeignKey {
            constraint_name: row.constraint_name.clone(),
            source_column: share(&table.columns[si]),
            referenced_table: row.foreign_table_name.clone(),
            referenced_column,
            on_update: map_fk_action(row.on_update.as_str()),
            on_delete: map_fk_action(row.on_delete.as_str()),
        };
        table.constraints.push(c);
        assert(table.constraint_views() =~= cs.push(c@));
    }
}

/// The constraints once the rows of the constraint query are taken in, one
/// after another, in order.
pub open spec fn constraints_after_rows(
    cs: Seq<ConstraintView>,
    columns: Seq<Rc<Column>>,
    rows: Seq<ConstraintRow>,
) -> Seq<ConstraintView>
    decreases rows.len(),
{
    if rows.len() == 0 {
        cs
    } else {
        let row = rows.last();
        constraints_after_row(
            constraints_after_rows(cs, columns, rows.drop_last()),
            columns,
            row.constraint_name@,
            row.constraint_type@,
            row.column_name@,
        )
    }
}

/// The constraints once the rows of the foreign key query are taken in, one
/// after another, in order.
pub open spec fn constraints_after_fk_rows(
    cs: Seq<ConstraintView>,
    columns: Seq<Rc<Column>>,
    rows: Seq<ForeignKeyRow>,
    lookup: Map<ColumnKey, Rc<Column>>,
) -> Seq<ConstraintView>
    decreases rows.len(),
{
    if rows.len() == 0 {
        cs
    } else {
        constraints_after_fk_row(
            constraints_after_fk_rows(cs, columns, rows.drop_last(), lookup),
            columns,
            rows.last(),
            lookup,
        )
    }
}

/// Takes the rows of the constraint query into the table's constraints, in
/// order.
pub fn apply_constraint_rows(table: &mut Table, rows: &Vec<ConstraintRow>)
    ensures
        final(table).name == old(table).name,
        final(table).schema == old(table).schema,
        final(table).columns == old(table).columns,
        final(table).constraint_views() == constraints_after_rows(
            old(table).constraint_views(),
            old(table).columns@,
            rows@,
        ),
{
    let ghost start = *table;
    let mut i: usize = 0;
    while i < rows.len()
        invariant
            i <= rows@.len(),
            table.name == start.name,
            table.schema == start.schema,
            table.columns == start.columns,
            table.constraint_views() == constraints_after_rows(
                start.constraint_views(),
                start.columns@,
                rows@.take(i as int),
            ),
        decreases rows.len() - i,
    {
        apply_constraint_row(table, &rows[i]);
        assert(rows@.take(i + 1).drop_last() == rows@.take(i as int));
        i += 1;
    }
    assert(rows@.take(rows@.len() as int) == rows@);
}

/// Takes the rows of the foreign key query into the table's constraints, in
/// order.
pub fn apply_foreign_key_rows(table: &mut Table, rows: &Vec<ForeignKeyRow>, lookup: &ColumnLookup)
    ensures
        final(table).name == old(table).name,
        final(table).schema == old(table).schema,
        final(table).columns == old(table).columns,
        final(table).constraint_views() == constraints_after_fk_rows(
            old(table).constraint_views(),
            old(table).columns@,
            rows@,
            lookup@,
        ),
{
    let ghost start = *table;
    let mut i: usize = 0;
    while i < rows.len()
        invariant
            i <= rows@.len(),
            table.name == start.name,
            table.schema == start.schema,
            table.columns == start.columns,
            table.constraint_views() == constraints_after_fk_rows(
                start.constraint_views(),
                start.columns@,
                rows@.take(i as int),
                lookup@,
            ),
        decreases rows.len() - i,
    {
        apply_foreign_key_row(table, &rows[i], lookup);
        assert(rows@.take(i + 1).drop_last() == rows@.take(i as int));
        i += 1;
    }
    assert(rows@.take(rows@.len() as int) == rows@);
}


/// Taking in rows of the constraint query, one after another, keeps the
/// constraints well formed.
pub proof fn lemma_constraint_rows_keep_well_formed(
    cs: Seq<ConstraintView>,
    columns: Seq<Rc<Column>>,
    rows: Seq<ConstraintRow>,
)
    requires
        constraints_well_formed(cs),
    ensures
        constraints_well_formed(constraints_after_rows(cs, columns, rows)),
    decreases rows.len(),
{
    if rows.len() > 0 {
        let row = rows.last();
        lemma_constraint_rows_keep_well_formed(cs, columns, rows.drop_last());
        lemma_constraint_row_keeps_well_formed(
            constraints_after_rows(cs, columns, rows.drop_last()),
            columns,
            row.constraint_name@,
            row.constraint_type@,
            row.column_name@,
        );
    }
}

/// Rows of the foreign key query only add foreign keys, after the
/// constraints that were there: the result is the old constraints followed
/// by the foreign keys that the rows give on their own, in the rows' order.
pub proof fn lemma_fk_rows_append_foreign_keys(
    cs: Seq<ConstraintView>,
    columns: Seq<Rc<Column>>,
    rows: Seq<ForeignKeyRow>,
    lookup: Map<ColumnKey, Rc<Column>>,
)
    ensures
        constraints_after_fk_rows(cs, columns, rows, lookup) == cs + constraints_after_fk_rows(
            Seq::empty(),
            columns,
            rows,
            lookup,
        ),
        forall|i: int|
            0 <= i < constraints_after_fk_rows(Seq::empty(), columns, rows, lookup).len() ==> (
            #[trigger] constraints_after_fk_rows(Seq::empty(), columns, rows, lookup)[i]) is ForeignKey,
    decreases rows.len(),
{
    if rows.len() == 0 {
        assert(cs + Seq::<ConstraintView>::empty() =~= cs);
    } else {
        let init = rows.drop_last();
        lemma_fk_rows_append_foreign_keys(cs, columns, init, lookup);
        let prev = constraints_after_fk_rows(Seq::empty(), columns, init, lookup);
        let next = constraints_after_fk_rows(Seq::empty(), columns, rows, lookup);
        assert(next == constraints_after_fk_row(prev, columns, rows.last(), lookup));
        let key = (
            rows.last().foreign_table_schema@,
            rows.last().foreign_table_name@,
            rows.last().foreign_column_name@,
        );
        if (exists|i: int| is_first_named(column_names(columns), rows.last().column_name@, i))
            && lookup.contains_key(key) {
            assert((cs + prev).push(next.last()) =~= cs + next);
        }
    }
}

/// Taking in rows of the foreign key query keeps the constraints well
/// formed.
pub proof fn lemma_fk_rows_keep_well_formed(
    cs: Seq<ConstraintView>,
    columns: Seq<Rc<Column>>,
    rows: Seq<ForeignKeyRow>,
    lookup: Map<ColumnKey, Rc<Column>>,
)
    requires
        constraints_well_formed(cs),
    ensures
        constraints_well_formed(constraints_after_fk_rows(cs, columns, rows, lookup)),
    decreases rows.len(),
{
    if rows.len() > 0 {
        let init = rows.drop_last();
        let row = rows.last();
        lemma_fk_rows_keep_well_formed(cs, columns, init, lookup);
        let prev = constraints_after_fk_rows(cs, columns, init, lookup);
        let key = (row.foreign_table_schema@, row.foreign_table_name@, row.foreign_column_name@);
        if (exists|i: int| is_first_named(column_names(columns), row.column_name@, i))
            && lookup.contains_key(key) {
            let next = constraints_after_fk_rows(cs, columns, rows, lookup);
            lemma_foreign_key_keeps_well_formed(prev, next.last());
            assert(next == prev.push(next.last()));
        }
    }
}

/// Whether a constraint row adds a column to the primary key: it is a
/// primary key row, and the table has its column.
pub open spec fn adds_to_primary_key(columns: Seq<Rc<Column>>, row: ConstraintRow) -> bool {
    &&& row.constraint_type@ == constants::CONSTRAINT_PK@
    &&& exists|i: int| is_first_named(column_names(columns), row.column_name@, i)
}

/// The first column of a table that is called `name`.
pub open spec fn first_column_named(columns: Seq<Rc<Column>>, name: Seq<char>) -> Rc<Column> {
    columns[choose|i: int| is_first_named(column_names(columns), name, i)]
}

/// The primary key that rows of the constraint query build: named after the
/// first row that adds to it, with the columns of all rows that add to it,
/// in order; none when no row adds to it.
pub open spec fn primary_key_of_rows(columns: Seq<Rc<Column>>, rows: Seq<ConstraintRow>) -> Option<
    KeyView,
>
    decreases rows.len(),
{
    if rows.len() == 0 {
        None
    } else {
        let prev = primary_key_of_rows(columns, rows.drop_last());
        let row = rows.last();
        if adds_to_primary_key(columns, row) {
            let column = first_column_named(columns, row.column_name@);
            match prev {
                None => Some(KeyView { name: row.constraint_name@, columns: seq![column] }),
                Some(key) => Some(KeyView { name: key.name, columns: key.columns.push(column) }),
            }
        } else {
            prev
        }
    }
}

/// Whether `key` is the table's only primary key, or, for `None`, the table
/// has none.
pub open spec fn has_only_primary_key(cs: Seq<ConstraintView>, key: Option<KeyView>) -> bool {
    match key {
        None => forall|k: int| 0 <= k < cs.len() ==> !(#[trigger] cs[k] is PrimaryKey),
        Some(key) => exists|k: int|
            0 <= k < cs.len() && cs[k] == ConstraintView::PrimaryKey(key) && forall|m: int|
                0 <= m < cs.len() && (#[trigger] cs[m] is PrimaryKey) ==> m == k,
    }
}

/// The rows of the constraint query give a table without a primary key
/// exactly the primary key that its primary key rows describe: one
/// constraint, named after the first of them, with their columns in order.
pub proof fn lemma_constraint_rows_build_primary_key(
    cs: Seq<ConstraintView>,
    columns: Seq<Rc<Column>>,
    rows: Seq<ConstraintRow>,
)
    requires
        forall|k: int| 0 <= k < cs.len() ==> !(#[trigger] cs[k] is PrimaryKey),
    ensures
        has_only_primary_key(
            constraints_after_rows(cs, columns, rows),
            primary_key_of_rows(columns, rows),
        ),
    decreases rows.len(),
{
    if rows.len() > 0 {
        let init = rows.drop_last();
        let row = rows.last();
        lemma_constraint_rows_build_primary_key(cs, columns, init);
        let prev = constraints_after_rows(cs, columns, init);
        let next = constraints_after_rows(cs, columns, rows);
        let prev_key = primary_key_of_rows(columns, init);
        assert(next == constraints_after_row(
            prev,
            columns,
            row.constraint_name@,
            row.constraint_type@,
            row.column_name@,
        ));
        if exists|i: int| is_first_named(column_names(columns), row.column_name@, i) {
            let column = first_column_named(columns, row.column_name@);
            if row.constraint_type@ == constants::CONSTRAINT_PK@ {
                match prev_key {
                    None => {
                        if exists|k: int| is_first_primary_key(prev, k) {
                            let k = choose|k: int| is_first_primary_key(prev, k);
                            assert(prev[k] is PrimaryKey);
                        }
                        assert(next[prev.len() as int] == ConstraintView::PrimaryKey(
                            KeyView { name: row.constraint_name@, columns: seq![column] },
                        ));
                        assert forall|m: int|
                            0 <= m < next.len() && (#[trigger] next[m] is PrimaryKey) implies m
                            == prev.len() by {
                            if m < prev.len() {
                                assert(next[m] == prev[m]);
                            }
                        }
                    },
                    Some(key) => {
                        let k = choose|k: int|
                            0 <= k < prev.len() && prev[k] == ConstraintView::PrimaryKey(key)
                                && forall|m: int|
                                0 <= m < prev.len() && (#[trigger] prev[m] is PrimaryKey) ==> m == k;
                        assert forall|j: int| 0 <= j < k implies !(#[trigger] prev[j] is PrimaryKey) by {}
                        assert(is_first_primary_key(prev, k));
                        lemma_first_primary_key_unique(prev, k);
                        assert(next[k] == ConstraintView::PrimaryKey(
                            KeyView { name: key.name, columns: key.columns.push(column) },
                        ));
                        assert forall|m: int|
                            0 <= m < next.len() && (#[trigger] next[m] is PrimaryKey) implies m
                            == k by {
                            if m != k {
                                assert(next[m] == prev[m]);
                            }
                        }
                    },
                }
            } else if row.constraint_type@ == constants::CONSTRAINT_UNIQUE@ {
                if exists|k: int| is_first_unique_named(prev, row.constraint_name@, k) {
                    let k = choose|k: int| is_first_unique_named(prev, row.constraint_name@, k);
                    assert forall|m: int| 0 <= m < next.len() implies (#[trigger] next[m] is PrimaryKey)
                        == (prev[m] is PrimaryKey) by {}
                    match prev_key {
                        None => {},
                        Some(key) => {
                            let p = choose|p: int|
                                0 <= p < prev.len() && prev[p] == ConstraintView::PrimaryKey(key)
                                    && forall|m: int|
                                    0 <= m < prev.len() && (#[trigger] prev[m] is PrimaryKey) ==> m == p;
                            assert(next[p] == prev[p]);
                        },
                    }
                } else {
                    assert forall|m: int| 0 <= m < prev.len() implies (#[trigger] next[m] is PrimaryKey)
                        == (prev[m] is PrimaryKey) by {}
                    assert(!(next[prev.len() as int] is PrimaryKey));
                    match prev_key {
                        None => {},
                        Some(key) => {
                            let p = choose|p: int|
                                0 <= p < prev.len() && prev[p] == ConstraintView::PrimaryKey(key)
                                    && forall|m: int|
                                    0 <= m < prev.len() && (#[trigger] prev[m] is PrimaryKey) ==> m == p;
                            assert(next[p] == prev[p]);
                        },
                    }
                }
            }
        }
    }
}


/// What the catalog says of one table: its schema and name, the rows of its
/// columns, and the rows of its key and foreign key constraints.
pub struct TableCatalog {
    pub schema: String,
    pub name: String,
    pub columns: Vec<ColumnRow>,
    pub constraints: Vec<ConstraintRow>,
    pub foreign_keys: Vec<ForeignKeyRow>,
}

/// Whether `table` is the table that `entry` describes: its schema and name,
/// the columns that the column rows describe, in order, then the key
/// constraints of the constraint rows and the foreign keys of the foreign key
/// rows, whose referenced columns are found in `lookup`.
pub open spec fn built_from(
    entry: TableCatalog,
    table: Table,
    lookup: Map<ColumnKey, Rc<Column>>,
) -> bool {
    &&& table.name@ == entry.name@
    &&& table.schema matches Some(s) && s@ == entry.schema@
    &&& table.columns@.len() == entry.columns@.len()
    &&& forall|i: int|
        0 <= i < entry.columns@.len() ==> describes(&entry.columns@[i], &*#[trigger] table.columns@[i])
    &&& table.constraint_views() == constraints_after_fk_rows(
        constraints_after_rows(Seq::empty(), table.columns@, entry.constraints@),
        table.columns@,
        entry.foreign_keys@,
        lookup,
    )
}

/// The tables that the catalog describes, in order, with their columns and
/// constraints; foreign keys reference columns of these tables only.
pub fn tables_from_catalog(catalog: &Vec<TableCatalog>) -> (tables: Vec<Table>)
    ensures
        tables@.len() == catalog@.len(),
        forall|j: int|
            0 <= j < catalog@.len() ==> built_from(
                #[trigger] catalog@[j],
                tables@[j],
                lookup_of_tables(tables@),
            ),
{
    let mut tables: Vec<Table> = Vec::new();
    let mut j: usize = 0;
    while j < catalog.len()
        invariant
            j <= catalog@.len(),
            tables@.len() == j,
            forall|k: int|
                0 <= k < j ==> {
                    let t = #[trigger] tables@[k];
                    &&& t.name@ == catalog@[k].name@
                    &&& t.schema matches Some(s) && s@ == catalog@[k].schema@
                    &&& t.columns@.len() == catalog@[k].columns@.len()
                    &&& forall|i: int|
                        0 <= i < catalog@[k].columns@.len() ==> describes(
                            &catalog@[k].columns@[i],
                            &*#[trigger] t.columns@[i],
                        )
                    &&& t.constraints@.len() == 0
                },
        decreases catalog.len() - j,
    {
        let entry = &catalog[j];
        let t = table_from_column_rows(entry.schema.clone(), entry.name.clone(), &entry.columns);
        tables.push(t);
        j += 1;
    }
    let lookup = build_column_lookup(&tables);
    let ghost base = tables@;
    let mut j: usize = 0;
    while j < catalog.len()
        invariant
            j <= catalog@.len(),
            base.len() == catalog@.len(),
            tables@.len() == catalog@.len(),
            lookup@ == lookup_of_tables(base),
            forall|k: int|
                0 <= k < base.len() ==> (#[trigger] tables@[k]).name == base[k].name
                    && tables@[k].schema == base[k].schema && tables@[k].columns == base[k].columns,
            forall|k: int| j <= k < base.len() ==> #[trigger] tables@[k] == base[k],
            forall|k: int|
                0 <= k < base.len() ==> {
                    let t = #[trigger] base[k];
                    &&& t.name@ == catalog@[k].name@
                    &&& t.schema matches Some(s) && s@ == catalog@[k].schema@
                    &&& t.columns@.len() == catalog@[k].columns@.len()
                    &&& forall|i: int|
                        0 <= i < catalog@[k].columns@.len() ==> describes(
                            &catalog@[k].columns@[i],
                            &*#[trigger] t.columns@[i],
                        )
                    &&& t.constraints@.len() == 0
                },
            forall|k: int|
                0 <= k < j ==> (#[trigger] tables@[k]).constraint_views() == constraints_after_fk_rows(
                    constraints_after_rows(Seq::empty(), base[k].columns@, catalog@[k].constraints@),
                    base[k].columns@,
                    catalog@[k].foreign_keys@,
                    lookup@,
                ),
        decreases catalog.len() - j,
    {
        let ghost before = tables@;
        let mut t = tables.remove(j);
        assert(t == base[j as int]);
        assert(t.constraint_views() =~= Seq::<ConstraintView>::empty());
        apply_constraint_rows(&mut t, &catalog[j].constraints);
        apply_foreign_key_rows(&mut t, &catalog[j].foreign_keys, &lookup);
        tables.insert(j, t);
        assert(tables@ =~= before.update(j as int, t));
        j += 1;
    }
    proof {
        lemma_lookup_of_same_columns(tables@, base);
    }
    tables
}


/// A table built from the catalog has well-formed constraints, and its
/// primary key is the one that its primary key rows describe.
pub proof fn lemma_catalog_table_constraints(
    entry: TableCatalog,
    table: Table,
    lookup: Map<ColumnKey, Rc<Column>>,
)
    requires
        built_from(entry, table, lookup),
    ensures
        constraints_well_formed(table.constraint_views()),
        has_only_primary_key(
            table.constraint_views(),
            primary_key_of_rows(table.columns@, entry.constraints@),
        ),
{
    let columns = table.columns@;
    let keys = constraints_after_rows(Seq::empty(), columns, entry.constraints@);
    let fks = constraints_after_fk_rows(Seq::empty(), columns, entry.foreign_keys@, lookup);
    lemma_constraint_rows_keep_well_formed(Seq::empty(), columns, entry.constraints@);
    lemma_fk_rows_keep_well_formed(keys, columns, entry.foreign_keys@, lookup);
    lemma_constraint_rows_build_primary_key(Seq::empty(), columns, entry.constraints@);
    lemma_fk_rows_append_foreign_keys(keys, columns, entry.foreign_keys@, lookup);
    let all = keys + fks;
    assert(table.constraint_views() == all);
    assert forall|m: int| keys.len() <= m < all.len() implies !(#[trigger] all[m] is PrimaryKey) by {
        assert(all[m] == fks[m - keys.len()]);
    }
    assert forall|m: int| 0 <= m < keys.len() implies #[trigger] all[m] == keys[m] by {}
    match primary_key_of_rows(columns, entry.constraints@) {
        None => {
            assert forall|k: int| 0 <= k < all.len() implies !(#[trigger] all[k] is PrimaryKey) by {
                if k < keys.len() {
                    assert(all[k] == keys[k]);
                }
            }
        },
        Some(key) => {
            let p = choose|p: int|
                0 <= p < keys.len() && keys[p] == ConstraintView::PrimaryKey(key) && forall|m: int|
                    0 <= m < keys.len() && (#[trigger] keys[m] is PrimaryKey) ==> m == p;
            assert(all[p] == keys[p]);
            assert forall|m: int| 0 <= m < all.len() && (#[trigger] all[m] is PrimaryKey) implies m
                == p by {
                if m < keys.len() {
                    assert(all[m] == keys[m]);
                }
            }
        },
    }
}


/// A foreign key row references the column that the lookup holds under the
/// row's own schema, table and column names: when the table has the row's
/// column and the lookup holds that key, exactly one foreign key is added,
/// from the first column of that name to the column under that key, with the
/// row's name and actions; whenever one is added, the lookup holds that key
/// and it is the column under it; when the lookup lacks the key, nothing is
/// added.
pub proof fn lemma_fk_row_references_named_column(
    cs: Seq<ConstraintView>,
    columns: Seq<Rc<Column>>,
    row: ForeignKeyRow,
    lookup: Map<ColumnKey, Rc<Column>>,
    i: int,
)
    ensures
        is_first_named(column_names(columns), row.column_name@, i) && lookup.contains_key(
            (row.foreign_table_schema@, row.foreign_table_name@, row.foreign_column_name@),
        ) ==> constraints_after_fk_row(cs, columns, row, lookup) == cs.push(
            ConstraintView::ForeignKey {
                name: row.constraint_name@,
                source_column: columns[i],
                referenced_table: row.foreign_table_name@,
                referenced_column: lookup[(
                    row.foreign_table_schema@,
                    row.foreign_table_name@,
                    row.foreign_column_name@,
                )],
                on_update: fk_action_of(row.on_update@),
                on_delete: fk_action_of(row.on_delete@),
            },
        ),
        !lookup.contains_key(
            (row.foreign_table_schema@, row.foreign_table_name@, row.foreign_column_name@),
        ) ==> constraints_after_fk_row(cs, columns, row, lookup) == cs,
        constraints_after_fk_row(cs, columns, row, lookup).len() != cs.len() ==> {
            let r = constraints_after_fk_row(cs, columns, row, lookup);
            let key = (row.foreign_table_schema@, row.foreign_table_name@, row.foreign_column_name@);
            &&& lookup.contains_key(key)
            &&& r.len() == cs.len() + 1
            &&& r.last() matches ConstraintView::ForeignKey { referenced_column, .. }
            &&& referenced_column == lookup[key]
        },
{
    if is_first_named(column_names(columns), row.column_name@, i) {
        lemma_first_named_unique(column_names(columns), row.column_name@, i);
    }
}

/// Whether one of `tables` is the table `table_name` of schema
/// `table_schema`, a table without a schema being in the public one.
pub open spec fn names_table(tables: Seq<Table>, table_schema: Seq<char>, table_name: Seq<char>) -> bool {
    exists|i: int|
        0 <= i < tables.len() && (#[trigger] tables[i]).name@ == table_name && match tables[i].schema {
            Some(s) => s@ == table_schema,
            None => constants::SCHEMA_PUBLIC@ == table_schema,
        }
}

/// Whether the table `table_name` of schema `table_schema` is one of `tables`.
pub fn contains_table(tables: &[Table], table_schema: &str, table_name: &str) -> (r: bool)
    ensures
        r == names_table(tables@, table_schema@, table_name@),
{
    let mut i: usize = 0;
    while i < tables.len()
        invariant
            i <= tables@.len(),
            forall|j: int|
                0 <= j < i ==> !((#[trigger] tables@[j]).name@ == table_name@ && match tables@[j].schema {
                    Some(s) => s@ == table_schema@,
                    None => constants::SCHEMA_PUBLIC@ == table_schema@,
                }),
        decreases tables.len() - i,
    {
        let t = &tables[i];
        let schema: &str = match &t.schema {
            Some(s) => s.as_str(),
            None => constants::SCHEMA_PUBLIC,
        };
        if str_eq(t.name.as_str(), table_name) && str_eq(schema, table_schema) {
            return true;
        }
        i += 1;
    }
    false
}

/// Taking in a foreign key row keeps the constraints well formed.
pub proof fn lemma_foreign_key_keeps_well_formed(cs: Seq<ConstraintView>, fk: ConstraintView)
    requires
        constraints_well_formed(cs),
        fk is ForeignKey,
    ensures
        constraints_well_formed(cs.push(fk)),
{
    let r = cs.push(fk);
    assert forall|i: int, j: int|
        0 <= i < r.len() && 0 <= j < r.len() && #[trigger] r[i] is PrimaryKey
            && #[trigger] r[j] is PrimaryKey implies i == j by {
        assert(r[i] == cs[i] && r[j] == cs[j]);
    }
    assert forall|i: int, j: int|
        0 <= i < r.len() && 0 <= j < r.len() && (#[trigger] r[i] matches ConstraintView::Unique(a)
            && #[trigger] r[j] matches ConstraintView::Unique(b) && a.name == b.name) implies i == j by {
        assert(r[i] == cs[i] && r[j] == cs[j]);
    }
}

/// A table that names no schema is requested under the public schema, and a
/// table that names one is requested under it.
pub proof fn lemma_requested_table_schema(tables: Seq<Table>, i: int)
    requires
        0 <= i < tables.len(),
    ensures
        tables[i].schema is None ==> names_table(tables, "public"@, tables[i].name@),
        tables[i].schema matches Some(s) ==> names_table(tables, s@, tables[i].name@),
{
    assert(tables[i] == tables[i]);
}

} // verus!
