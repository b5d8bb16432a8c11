use std::rc::Rc;
use vstd::prelude::*;

use crate::sqlz::schema::{Column, Table};
use crate::support::{share, str_eq};

verus! {

/// The key under which a column is found: its table's schema, its table's
/// name and its own name.
pub type ColumnKey = (Seq<char>, Seq<char>, Seq<char>);

/// The columns of all tables by schema, table and column name.
pub struct ColumnLookup {
    entries: Vec<(String, String, String, Rc<Column>)>,
}

/// The map that a sequence of entries builds when each is inserted in turn,
/// so that a later entry replaces an earlier one of the same key.
pub open spec fn entries_map(entries: Seq<(String, String, String, Rc<Column>)>) -> Map<
    ColumnKey,
    Rc<Column>,
>
    decreases entries.len(),
{
    if entries.len() == 0 {
        Map::empty()
    } else {
        let e = entries.last();
        entries_map(entries.drop_last()).insert((e.0@, e.1@, e.2@), e.3)
    }
}

/// The key of an entry.
pub open spec fn entry_key(e: (String, String, String, Rc<Column>)) -> ColumnKey {
    (e.0@, e.1@, e.2@)
}

impl View for ColumnLookup {
    type V = Map<ColumnKey, Rc<Column>>;

    closed spec fn view(&self) -> Map<ColumnKey, Rc<Column>> {
        entries_map(self.entries@)
    }
}

/// The columns of one table, each under its key, a later column replacing an
/// earlier one of the same name.
pub open spec fn lookup_of_columns(schema: Seq<char>, table: Seq<char>, columns: Seq<Rc<Column>>) -> Map<
    ColumnKey,
    Rc<Column>,
>
    decreases columns.len(),
{
    if columns.len() == 0 {
        Map::empty()
    } else {
        lookup_of_columns(schema, table, columns.drop_last()).insert(
            (schema, table, columns.last().name@),
            columns.last(),
        )
    }
}

/// The columns of all tables, each under its key, a later table's column
/// replacing an earlier one of the same key.
pub open spec fn lookup_of_tables(tables: Seq<Table>) -> Map<ColumnKey, Rc<Column>>
    decreases tables.len(),
{
    if tables.len() == 0 {
        Map::empty()
    } else {
        let t = tables.last();
        lookup_of_tables(tables.drop_last()).union_prefer_right(
            lookup_of_columns(t.schema.unwrap()@, t.name@, t.columns@),
        )
    }
}

/// The last entry of a key is the one that the map keeps, and a key that no
/// entry has is not in the map.
proof fn lemma_entries_map_last(entries: Seq<(String, String, String, Rc<Column>)>, key: ColumnKey)
    ensures
        (forall|i: int| 0 <= i < entries.len() ==> entry_key(#[trigger] entries[i]) != key)
            ==> !entries_map(entries).contains_key(key),
        forall|i: int|
            0 <= i < entries.len() && entry_key(entries[i]) == key && (forall|j: int|
                i < j < entries.len() ==> entry_key(#[trigger] entries[j]) != key) ==> {
                &&& entries_map(entries).contains_key(key)
                &&& entries_map(entries)[key] == entries[i].3
            },
    decreases entries.len(),
{
    if entries.len() > 0 {
        let init = entries.drop_last();
        let last = entries.last();
        lemma_entries_map_last(init, key);
        assert(entries_map(entries) == entries_map(init).insert(entry_key(last), last.3));
        assert forall|i: int|
            0 <= i < entries.len() && entry_key(entries[i]) == key && (forall|j: int|
                i < j < entries.len() ==> entry_key(#[trigger] entries[j]) != key) implies {
                &&& entries_map(entries).contains_key(key)
                &&& entries_map(entries)[key] == entries[i].3
            } by {
            if i < entries.len() - 1 {
                assert(entry_key(last) != key);
                assert(init[i] == entries[i]);
                assert forall|j: int| i < j < init.len() implies entry_key(#[trigger] init[j]) != key by {
                    assert(init[j] == entries[j]);
                }
            }
        }
        if forall|i: int| 0 <= i < entries.len() ==> entry_key(#[trigger] entries[i]) != key {
            assert forall|i: int| 0 <= i < init.len() implies entry_key(#[trigger] init[i]) != key by {
                assert(init[i] == entries[i]);
            }
            assert(entry_key(entries[entries.len() - 1]) != key);
        }
    }
}

impl ColumnLookup {
    /// The column found under (`schema`, `table`, `column`).
    pub fn get(&self, schema: &str, table: &str, column: &str) -> (r: Option<Rc<Column>>)
        ensures
            r == self@.get((schema@, table@, column@)),
    {
        let ghost key = (schema@, table@, column@);
        proof {
            lemma_entries_map_last(self.entries@, key);
        }
        let mut i: usize = self.entries.len();
        while i > 0
            invariant
                i <= self.entries@.len(),
                key == (schema@, table@, column@),
                forall|j: int| i <= j < self.entries@.len() ==> entry_key(#[trigger] self.entries@[j]) != key,
            decreases i,
        {
            let e = &self.entries[i - 1];
            if str_eq(e.0.as_str(), schema) && str_eq(e.1.as_str(), table) && str_eq(e.2.as_str(), column) {
                assert(e.0@ == schema@ && e.1@ == table@ && e.2@ == column@);
                assert(*e == self.entries@[i - 1]);
                assert(entry_key(self.entries@[i - 1]) == key);
                proof {
                    lemma_entries_map_last(self.entries@, key);
                }
                return Some(share(&e.3));
            }
            i -= 1;
        }
        None
    }
}

/// The lookup of every column of `tables`, as the catalog's foreign keys
/// name them.
pub fn build_column_lookup(tables: &Vec<Table>) -> (r: ColumnLookup)
    requires
        forall|i: int| 0 <= i < tables@.len() ==> (#[trigger] tables@[i]).schema is Some,
    ensures
        r@ == lookup_of_tables(tables@),
{
    let mut entries: Vec<(String, String, String, Rc<Column>)> = Vec::new();
    let mut i: usize = 0;
    while i < tables.len()
        invariant
            i <= tables@.len(),
            forall|k: int| 0 <= k < tables@.len() ==> (#[trigger] tables@[k]).schema is Some,
            entries_map(entries@) == lookup_of_tables(tables@.take(i as int)),
        decreases tables.len() - i,
    {
        let t = &tables[i];
        let schema = match &t.schema {
            Some(s) => s,
            None => {
                return ColumnLookup { entries };
            },
        };
        let ghost before = lookup_of_tables(tables@.take(i as int));
        let mut j: usize = 0;
        while j < t.columns.len()
            invariant
                j <= t.columns@.len(),
                t.schema == Some(*schema),
                entries_map(entries@) == before.union_prefer_right(
                    lookup_of_columns(schema@, t.name@, t.columns@.take(j as int)),
                ),
            decreases t.columns.len() - j,
        {
            let c = &t.columns[j];
            let ghost prev = entries@;
            entries.push((schema.clone(), t.name.clone(), c.name.clone(), share(c)));
            assert(entries@.drop_last() == prev);
            assert(t.columns@.take(j + 1).drop_last() == t.columns@.take(j as int));
            assert(entries_map(entries@) =~= before.union_prefer_right(
                lookup_of_columns(schema@, t.name@, t.columns@.take(j + 1)),
            ));
            j += 1;
        }
        assert(t.columns@.take(t.columns@.len() as int) == t.columns@);
        assert(tables@.take(i + 1).drop_last() == tables@.take(i as int));
        i += 1;
    }
    assert(tables@.take(tables@.len() as int) == tables@);
    ColumnLookup { entries }
}

/// The lookup of tables depends only on their schemas, names and columns.
pub proof fn lemma_lookup_of_same_columns(a: Seq<Table>, b: Seq<Table>)
    requires
        a.len() == b.len(),
        forall|i: int|
            0 <= i < a.len() ==> (#[trigger] a[i]).schema == b[i].schema && a[i].name == b[i].name
                && a[i].columns == b[i].columns,
    ensures
        lookup_of_tables(a) == lookup_of_tables(b),
    decreases a.len(),
{
    if a.len() > 0 {
        lemma_lookup_of_same_columns(a.drop_last(), b.drop_last());
        assert(a.last().schema == b.last().schema);
    }
}

/// Every key of a table's columns names that table.
proof fn lemma_column_keys_name_table(schema: Seq<char>, table: Seq<char>, columns: Seq<Rc<Column>>, key: ColumnKey)
    requires
        lookup_of_columns(schema, table, columns).contains_key(key),
    ensures
        key.0 == schema && key.1 == table,
    decreases columns.len(),
{
    if columns.len() > 0 && key != (schema, table, columns.last().name@) {
        lemma_column_keys_name_table(schema, table, columns.drop_last(), key);
    }
}

/// A column is found under its key among its table's columns when no later
/// column has its name.
proof fn lemma_columns_find_column(schema: Seq<char>, table: Seq<char>, columns: Seq<Rc<Column>>, j: int)
    requires
        0 <= j < columns.len(),
        forall|k: int| j < k < columns.len() ==> (#[trigger] columns[k]).name@ != columns[j].name@,
    ensures
        lookup_of_columns(schema, table, columns).contains_key((schema, table, columns[j].name@)),
        lookup_of_columns(schema, table, columns)[(schema, table, columns[j].name@)] == columns[j],
    decreases columns.len(),
{
    if j < columns.len() - 1 {
        let init = columns.drop_last();
        assert forall|k: int| j < k < init.len() implies (#[trigger] init[k]).name@ != init[j].name@ by {
            assert(init[k] == columns[k]);
        }
        lemma_columns_find_column(schema, table, init, j);
        assert(columns.last().name@ != columns[j].name@);
    }
}

/// The lookup finds a column of a table under the table's schema and name
/// and the column's name, when no later column of the table has its name and
/// no later table has the table's schema and name.
pub proof fn lemma_lookup_finds_column(tables: Seq<Table>, i: int, j: int)
    requires
        0 <= i < tables.len(),
        forall|m: int| 0 <= m < tables.len() ==> (#[trigger] tables[m]).schema is Some,
        0 <= j < tables[i].columns@.len(),
        forall|k: int|
            j < k < tables[i].columns@.len() ==> (#[trigger] tables[i].columns@[k]).name@
                != tables[i].columns@[j].name@,
        forall|m: int|
            i < m < tables.len() ==> !((#[trigger] tables[m]).schema.unwrap()@
                == tables[i].schema.unwrap()@ && tables[m].name@ == tables[i].name@),
    ensures
        ({
            let key = (tables[i].schema.unwrap()@, tables[i].name@, tables[i].columns@[j].name@);
            &&& lookup_of_tables(tables).contains_key(key)
            &&& lookup_of_tables(tables)[key] == tables[i].columns@[j]
        }),
    decreases tables.len(),
{
    let t = tables[i];
    let key = (t.schema.unwrap()@, t.name@, t.columns@[j].name@);
    let last = tables.last();
    let init = tables.drop_last();
    let last_map = lookup_of_columns(last.schema.unwrap()@, last.name@, last.columns@);
    if i == tables.len() - 1 {
        lemma_columns_find_column(t.schema.unwrap()@, t.name@, t.columns@, j);
    } else {
        assert forall|m: int| 0 <= m < init.len() implies (#[trigger] init[m]).schema is Some by {
            assert(init[m] == tables[m]);
        }
        assert forall|m: int|
            i < m < init.len() implies !((#[trigger] init[m]).schema.unwrap()@
                == init[i].schema.unwrap()@ && init[m].name@ == init[i].name@) by {
            assert(init[m] == tables[m]);
        }
        assert(init[i] == t);
        lemma_lookup_finds_column(init, i, j);
        if last_map.contains_key(key) {
            lemma_column_keys_name_table(last.schema.unwrap()@, last.name@, last.columns@, key);
            assert(tables[tables.len() - 1] == last);
        }
    }
}

} // verus!
