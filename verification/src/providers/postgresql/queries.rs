use std::rc::Rc;
use vstd::hash_map::StringHashMap;
use vstd::prelude::*;
use vstd::string::StringExecFns;

use crate::providers::postgresql::helper::{map_sqlz_to_native_type, native_type_of};
use crate::providers::postgresql::sql_text::{
    decimal, join, joined, quote, quoted, to_decimal, views,
};
use crate::sqlz::query::{RowReadOptions, SqlzRow};
use crate::sqlz::schema::PrimaryKeyConstraint;
use crate::sqlz::types::{SqlzValue, SqlzValueView};
use crate::sqlz::schema::{Column, Table};
use crate::support::owned;

verus! {

/// The column of the table listing that names a table's schema.
pub const COL_TABLE_SCHEMA: &'static str = "table_schema";
/// The column of the table listing that names a table.
pub const COL_TABLE_NAME: &'static str = "table_name";

/// The base tables of the database, by schema and name.
pub const SELECT_TABLES: &'static str = "SELECT table_schema, table_name
        FROM information_schema.tables
        WHERE table_type = 'BASE TABLE'
          AND table_schema NOT IN ('pg_catalog', 'information_schema')
        ORDER BY table_schema, table_name;";

/// The columns of table `$1` of schema `$2`, in order.
pub const SELECT_COLUMNS: &'static str = "SELECT
            column_name,
            data_type,
            character_maximum_length,
            numeric_precision,
            numeric_scale,
            is_nullable,
            column_default,
            udt_name,
            is_identity
        FROM information_schema.columns
        WHERE table_name = $1
          AND table_schema = $2
        ORDER BY ordinal_position;";

/// The columns of the primary key and unique constraints of table `$1` of
/// schema `$2`.
pub const SELECT_CONSTRAINTS: &'static str = "SELECT
            tc.constraint_name::text AS constraint_name,
            tc.constraint_type::text AS constraint_type,
            kcu.column_name::text AS column_name
        FROM information_schema.table_constraints tc
        JOIN information_schema.key_column_usage kcu
          ON tc.constraint_name = kcu.constraint_name
         AND tc.constraint_schema = kcu.constraint_schema
         AND tc.table_name = kcu.table_name
        WHERE tc.table_name = $1
          AND tc.table_schema = $2
          AND tc.constraint_type IN ('PRIMARY KEY', 'UNIQUE')
        ORDER BY tc.constraint_name, kcu.ordinal_position;";

/// The foreign keys of table `$1` of schema `$2`, one row per column.
pub const SELECT_FOREIGN_KEYS: &'static str = "SELECT
            tc.constraint_name::text AS constraint_name,
            kcu.column_name::text AS column_name,
            ccu.table_schema::text AS foreign_table_schema,
            ccu.table_name::text AS foreign_table_name,
            ccu.column_name::text AS foreign_column_name,
            rc.update_rule::text AS on_update,
            rc.delete_rule::text AS on_delete
        FROM information_schema.table_constraints tc
        JOIN information_schema.key_column_usage kcu
          ON tc.constraint_name = kcu.constraint_name
         AND tc.constraint_schema = kcu.constraint_schema
        JOIN information_schema.constraint_column_usage ccu
          ON ccu.constraint_name = tc.constraint_name
         AND ccu.constraint_schema = tc.constraint_schema
        JOIN information_schema.referential_constraints rc
          ON rc.constraint_name = tc.constraint_name
         AND rc.constraint_schema = tc.constraint_schema
        WHERE tc.constraint_type = 'FOREIGN KEY'
          AND tc.table_name = $1
          AND tc.table_schema = $2
        ORDER BY tc.constraint_name, kcu.ordinal_position;";

/// The name of a table as SQL writes it: its schema's name and its own, each
/// quoted, or its own alone when it names no schema.
pub open spec fn table_name_sql(table: &Table) -> Seq<char> {
    match table.schema {
        Some(s) => quoted(s@) + "."@ + quoted(table.name@),
        None => quoted(table.name@),
    }
}

/// The name of `table` as SQL writes it.
pub fn qualified_name(table: &Table) -> (r: String)
    ensures
        r@ == table_name_sql(table),
{
    match &table.schema {
        Some(schema) => {
            let mut r = quote(schema.as_str());
            r.append(".");
            let name = quote(table.name.as_str());
            r.append(name.as_str());
            r
        },
        None => quote(table.name.as_str()),
    }
}

/// The values of a map of strings, as sequences of characters.
pub open spec fn map_views(m: Map<Seq<char>, String>) -> Map<Seq<char>, Seq<char>> {
    m.map_values(|s: String| s@)
}

/// The native types that columns are created with, by column name, a later
/// column replacing an earlier one of the same name.
pub open spec fn native_types_of(columns: Seq<Rc<Column>>) -> Map<Seq<char>, Seq<char>>
    decreases columns.len(),
{
    if columns.len() == 0 {
        Map::empty()
    } else {
        native_types_of(columns.drop_last()).insert(
            columns.last().name@,
            native_type_of(columns.last().col_type@),
        )
    }
}

/// The native type of each column of `table`, by column name.
pub fn native_column_types(table: &Table) -> (r: StringHashMap<String>)
    ensures
        map_views(r@) == native_types_of(table.columns@),
{
    let mut r: StringHashMap<String> = StringHashMap::new();
    let mut i: usize = 0;
    assert(map_views(r@) =~= native_types_of(table.columns@.take(0)));
    while i < table.columns.len()
        invariant
            i <= table.columns@.len(),
            map_views(r@) == native_types_of(table.columns@.take(i as int)),
        decreases table.columns.len() - i,
    {
        let c = &table.columns[i];
        let ghost before = r@;
        r.insert(c.name.clone(), map_sqlz_to_native_type(&c.col_type));
        assert(table.columns@.take(i + 1).drop_last() == table.columns@.take(i as int));
        assert(map_views(r@) =~= native_types_of(table.columns@.take(i + 1)));
        i += 1;
    }
    assert(table.columns@.take(table.columns@.len() as int) == table.columns@);
    r
}

/// The definition of a column in a `CREATE TABLE` statement: its quoted
/// name, its native type from `types` (text when `types` has none), and
/// `NOT NULL` when it takes no nulls.
pub open spec fn column_definition(column: Column, types: Map<Seq<char>, Seq<char>>) -> Seq<char> {
    quoted(column.name@) + " "@ + (if types.contains_key(column.name@) {
        types[column.name@]
    } else {
        "text"@
    }) + (if column.is_nullable {
        ""@
    } else {
        " NOT NULL"@
    })
}

/// The statement that creates `table` with the native column types `types`.
pub open spec fn create_table_sql(table: &Table, types: Map<Seq<char>, Seq<char>>) -> Seq<char> {
    "CREATE TABLE IF NOT EXISTS "@ + table_name_sql(table) + " ("@ + joined(
        table.columns@.map_values(|c: Rc<Column>| column_definition(*c, types)),
        ", "@,
    ) + ")"@
}

/// The statement that creates `table`, its columns having the native types
/// of `column_map`.
pub fn build_create_table_sql(table: &Table, column_map: &StringHashMap<String>) -> (sql: String)
    ensures
        sql@ == create_table_sql(table, map_views(column_map@)),
{
    let ghost types = map_views(column_map@);
    let mut parts: Vec<String> = Vec::new();
    let mut i: usize = 0;
    while i < table.columns.len()
        invariant
            i <= table.columns@.len(),
            types == map_views(column_map@),
            views(parts@) =~= table.columns@.take(i as int).map_values(
                |c: Rc<Column>| column_definition(*c, types),
            ),
        decreases table.columns.len() - i,
    {
        let c = &table.columns[i];
        let mut def = quote(c.name.as_str());
        def.append(" ");
        match column_map.get(c.name.as_str()) {
            Some(native) => def.append(native.as_str()),
            None => def.append("text"),
        }
        if !c.is_nullable {
            def.append(" NOT NULL");
        }
        proof {
            reveal_strlit("");
        }
        assert(def@ =~= column_definition(**c, types));
        let ghost before = parts@;
        parts.push(def);
        assert(views(parts@) =~= views(before).push(def@));
        assert(table.columns@.take(i + 1) =~= table.columns@.take(i as int).push(table.columns@[i as int]));
        i += 1;
    }
    assert(table.columns@.take(table.columns@.len() as int) == table.columns@);
    let mut sql = owned("CREATE TABLE IF NOT EXISTS ");
    let name = qualified_name(table);
    sql.append(name.as_str());
    sql.append(" (");
    let defs = join(&parts, ", ");
    sql.append(defs.as_str());
    sql.append(")");
    sql
}

/// The parameter placeholders `$first`, `$first + 1`, ... of `count`
/// parameters.
pub open spec fn placeholders(first: nat, count: nat) -> Seq<Seq<char>> {
    Seq::new(count, |k: int| "$"@ + decimal((first + k) as nat))
}

/// The placeholders of `count` parameters after the first `offset` ones.
fn build_placeholders(offset: usize, count: usize) -> (r: Vec<String>)
    requires
        offset + count <= usize::MAX,
    ensures
        views(r@) == placeholders((offset + 1) as nat, count as nat),
{
    let mut r: Vec<String> = Vec::new();
    let mut k: usize = 0;
    while k < count
        invariant
            k <= count,
            offset + count <= usize::MAX,
            views(r@) =~= placeholders((offset + 1) as nat, k as nat),
        decreases count - k,
    {
        let mut p = owned("$");
        let n = to_decimal(offset + k + 1);
        p.append(n.as_str());
        let ghost before = r@;
        r.push(p);
        assert(views(r@) =~= views(before).push(p@));
        assert(placeholders((offset + 1) as nat, (k + 1) as nat) =~= placeholders(
            (offset + 1) as nat,
            k as nat,
        ).push(p@));
        k += 1;
    }
    r
}

/// The quoted names of a key's columns.
pub open spec fn key_columns_sql(columns: Seq<Rc<Column>>) -> Seq<Seq<char>> {
    columns.map_values(|c: Rc<Column>| quoted(c.name@))
}

/// The query of one batch of rows of `table` in the order of the key `pk`:
/// after the row whose key holds the starting point's values when the
/// options have one, and at most `batch_size` rows.
pub open spec fn read_rows_sql(table: &Table, pk: &PrimaryKeyConstraint, options: &RowReadOptions) -> Seq<char> {
    let keys = key_columns_sql(pk.columns@);
    "SELECT * FROM "@ + table_name_sql(table) + (match options.continue_from {
        Some(c) => " WHERE ("@ + joined(keys, ", "@) + ") > ("@ + joined(
            placeholders(1, c.where_params@.len()),
            ", "@,
        ) + ")"@,
        None => ""@,
    }) + (if keys.len() > 0 {
        " ORDER BY "@ + joined(keys, ", "@)
    } else {
        ""@
    }) + " LIMIT "@ + decimal(options.batch_size as nat)
}

/// The views of a sequence of values.
pub open spec fn value_views(values: Seq<SqlzValue>) -> Seq<SqlzValueView> {
    values.map_values(|v: SqlzValue| v@)
}

/// Copies of `values`, in order.
fn copy_values(values: &Vec<SqlzValue>) -> (r: Vec<SqlzValue>)
    ensures
        value_views(r@) == value_views(values@),
{
    let mut r: Vec<SqlzValue> = Vec::new();
    let mut i: usize = 0;
    while i < values.len()
        invariant
            i <= values@.len(),
            value_views(r@) =~= value_views(values@.take(i as int)),
        decreases values.len() - i,
    {
        let ghost before = r@;
        r.push(values[i].clone());
        assert(value_views(r@) =~= value_views(before).push(values@[i as int]@));
        assert(values@.take(i + 1) =~= values@.take(i as int).push(values@[i as int]));
        i += 1;
    }
    assert(values@.take(values@.len() as int) == values@);
    r
}

/// The query of one batch of `table`'s rows in the order of its key `pk`,
/// and the parameters of the query: the starting point's values.
pub fn build_read_rows_sql(table: &Table, pk: &PrimaryKeyConstraint, options: &RowReadOptions) -> (r: (
    String,
    Vec<SqlzValue>,
))
    ensures
        r.0@ == read_rows_sql(table, pk, options),
        value_views(r.1@) == match options.continue_from {
            Some(c) => value_views(c.where_params@),
            None => Seq::empty(),
        },
{
    let mut keys: Vec<String> = Vec::new();
    let mut i: usize = 0;
    while i < pk.columns.len()
        invariant
            i <= pk.columns@.len(),
            views(keys@) =~= key_columns_sql(pk.columns@.take(i as int)),
        decreases pk.columns.len() - i,
    {
        let ghost before = keys@;
        keys.push(quote(pk.columns[i].name.as_str()));
        assert(views(keys@) =~= views(before).push(keys@.last()@));
        assert(pk.columns@.take(i + 1) =~= pk.columns@.take(i as int).push(pk.columns@[i as int]));
        i += 1;
    }
    assert(pk.columns@.take(pk.columns@.len() as int) == pk.columns@);
    let key_list = join(&keys, ", ");
    let mut sql = owned("SELECT * FROM ");
    let name = qualified_name(table);
    sql.append(name.as_str());
    let ghost head = sql@;
    let mut params: Vec<SqlzValue> = Vec::new();
    proof {
        reveal_strlit("");
    }
    if let Some(c) = &options.continue_from {
        sql.append(" WHERE (");
        sql.append(key_list.as_str());
        sql.append(") > (");
        let marks = build_placeholders(0, c.where_params.len());
        let mark_list = join(&marks, ", ");
        sql.append(mark_list.as_str());
        sql.append(")");
        params = copy_values(&c.where_params);
    }
    let ghost with_where = sql@;
    if keys.len() > 0 {
        sql.append(" ORDER BY ");
        sql.append(key_list.as_str());
    }
    sql.append(" LIMIT ");
    let limit = to_decimal(options.batch_size);
    sql.append(limit.as_str());
    assert(sql@ =~= read_rows_sql(table, pk, options));
    (sql, params)
}

/// The number of values of all rows.
pub open spec fn total_values(rows: Seq<SqlzRow>) -> nat
    decreases rows.len(),
{
    if rows.len() == 0 {
        0
    } else {
        total_values(rows.drop_last()) + rows.last().values@.len()
    }
}

/// The values tuple of each row, its placeholders numbered on from those
/// of the rows before it.
pub open spec fn row_tuples(rows: Seq<SqlzRow>) -> Seq<Seq<char>>
    decreases rows.len(),
{
    if rows.len() == 0 {
        Seq::empty()
    } else {
        row_tuples(rows.drop_last()).push(
            "("@ + joined(
                placeholders(total_values(rows.drop_last()) + 1, rows.last().values@.len()),
                ", "@,
            ) + ")"@,
        )
    }
}

/// The values of all rows, in order.
pub open spec fn all_values(rows: Seq<SqlzRow>) -> Seq<SqlzValueView>
    decreases rows.len(),
{
    if rows.len() == 0 {
        Seq::empty()
    } else {
        all_values(rows.drop_last()) + value_views(rows.last().values@)
    }
}

/// The statement that inserts `rows` into `table`, the columns named as in
/// the first row.
pub open spec fn write_rows_sql(table: &Table, rows: Seq<SqlzRow>) -> Seq<char> {
    "INSERT INTO "@ + table_name_sql(table) + " ("@ + joined(
        rows[0].columns@.map_values(|c: String| quoted(c@)),
        ", "@,
    ) + ") VALUES "@ + joined(row_tuples(rows), ", "@)
}

/// The statement that inserts `rows` into `table`, and its parameters: the
/// values of all rows, in order.
pub fn build_write_rows_sql(table: &Table, rows: &Vec<SqlzRow>) -> (r: (String, Vec<SqlzValue>))
    requires
        rows@.len() > 0,
        total_values(rows@) <= usize::MAX,
    ensures
        r.0@ == write_rows_sql(table, rows@),
        value_views(r.1@) == all_values(rows@),
{
    let first = &rows[0];
    let mut names: Vec<String> = Vec::new();
    let mut i: usize = 0;
    while i < first.columns.len()
        invariant
            i <= first.columns@.len(),
            views(names@) =~= first.columns@.take(i as int).map_values(|c: String| quoted(c@)),
        decreases first.columns.len() - i,
    {
        let ghost before = names@;
        names.push(quote(first.columns[i].as_str()));
        assert(views(names@) =~= views(before).push(names@.last()@));
        assert(first.columns@.take(i + 1) =~= first.columns@.take(i as int).push(first.columns@[i as int]));
        i += 1;
    }
    assert(first.columns@.take(first.columns@.len() as int) == first.columns@);
    let mut params: Vec<SqlzValue> = Vec::new();
    let mut tuples: Vec<String> = Vec::new();
    let mut j: usize = 0;
    while j < rows.len()
        invariant
            j <= rows@.len(),
            total_values(rows@) <= usize::MAX,
            params@.len() == total_values(rows@.take(j as int)),
            value_views(params@) =~= all_values(rows@.take(j as int)),
            views(tuples@) =~= row_tuples(rows@.take(j as int)),
        decreases rows.len() - j,
    {
        proof {
            lemma_total_values_prefix(rows@, j as int + 1);
        }
        assert(rows@.take(j + 1).drop_last() =~= rows@.take(j as int));
        let row = &rows[j];
        let marks = build_placeholders(params.len(), row.values.len());
        let mut tuple = owned("(");
        let mark_list = join(&marks, ", ");
        tuple.append(mark_list.as_str());
        tuple.append(")");
        let ghost before_tuples = tuples@;
        tuples.push(tuple);
        assert(views(tuples@) =~= views(before_tuples).push(tuple@));
        let mut copies = copy_values(&row.values);
        let ghost before_params = params@;
        let ghost copied = copies@;
        params.append(&mut copies);
        assert(value_views(params@) =~= value_views(before_params) + value_views(copied));
        j += 1;
    }
    assert(rows@.take(rows@.len() as int) == rows@);
    let mut sql = owned("INSERT INTO ");
    let name = qualified_name(table);
    sql.append(name.as_str());
    sql.append(" (");
    let name_list = join(&names, ", ");
    sql.append(name_list.as_str());
    sql.append(") VALUES ");
    let tuple_list = join(&tuples, ", ");
    sql.append(tuple_list.as_str());
    (sql, params)
}

/// The values of a prefix of the rows are at most those of all rows.
proof fn lemma_total_values_prefix(rows: Seq<SqlzRow>, n: int)
    requires
        0 <= n <= rows.len(),
    ensures
        total_values(rows.take(n)) <= total_values(rows),
    decreases rows.len(),
{
    if n < rows.len() {
        lemma_total_values_prefix(rows.drop_last(), n);
        assert(rows.drop_last().take(n) =~= rows.take(n));
    } else {
        assert(rows.take(n) =~= rows);
    }
}

/// The read query takes its rows in the order of the whole key: it ends with
/// an `ORDER BY` of every key column, quoted, in key order, then the limit
/// of the batch size. When it continues from a starting point, it compares
/// exactly that list of columns with the starting point's values, so that
/// the batches follow one another in key order without gaps.
pub proof fn lemma_read_rows_sql_orders_by_whole_key(
    table: &Table,
    pk: &PrimaryKeyConstraint,
    options: &RowReadOptions,
)
    requires
        pk.columns@.len() > 0,
    ensures
        exists|head: Seq<char>|
            read_rows_sql(table, pk, options) == head + " ORDER BY "@ + joined(
                key_columns_sql(pk.columns@),
                ", "@,
            ) + " LIMIT "@ + decimal(options.batch_size as nat),
        options.continue_from matches Some(c) ==> exists|head: Seq<char>|
            read_rows_sql(table, pk, options) == head + " WHERE ("@ + joined(
                key_columns_sql(pk.columns@),
                ", "@,
            ) + ") > ("@ + joined(placeholders(1, c.where_params@.len()), ", "@) + ")"@
                + " ORDER BY "@ + joined(
                key_columns_sql(pk.columns@),
                ", "@,
            ) + " LIMIT "@ + decimal(options.batch_size as nat),
        key_columns_sql(pk.columns@).len() == pk.columns@.len(),
        forall|k: int|
            0 <= k < pk.columns@.len() ==> #[trigger] key_columns_sql(pk.columns@)[k] == quoted(
                pk.columns@[k].name@,
            ),
{
    let keys = key_columns_sql(pk.columns@);
    let sql = read_rows_sql(table, pk, options);
    let order = " ORDER BY "@ + joined(keys, ", "@) + " LIMIT "@ + decimal(options.batch_size as nat);
    match options.continue_from {
        Some(c) => {
            let head = "SELECT * FROM "@ + table_name_sql(table);
            let wh = " WHERE ("@ + joined(keys, ", "@) + ") > ("@ + joined(
                placeholders(1, c.where_params@.len()),
                ", "@,
            ) + ")"@;
            assert(sql =~= head + wh + order);
            assert(sql =~= head + " WHERE ("@ + joined(keys, ", "@) + ") > ("@ + joined(
                placeholders(1, c.where_params@.len()),
                ", "@,
            ) + ")"@ + " ORDER BY "@ + joined(keys, ", "@) + " LIMIT "@ + decimal(
                options.batch_size as nat,
            ));
            assert(sql =~= (head + wh) + " ORDER BY "@ + joined(keys, ", "@) + " LIMIT "@ + decimal(
                options.batch_size as nat,
            ));
        },
        None => {
            let head = "SELECT * FROM "@ + table_name_sql(table);
            reveal_strlit("");
            assert(sql =~= head + " ORDER BY "@ + joined(keys, ", "@) + " LIMIT "@ + decimal(
                options.batch_size as nat,
            ));
        },
    }
}

} // verus!
