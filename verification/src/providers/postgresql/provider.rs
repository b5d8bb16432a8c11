use vstd::prelude::*;
use vstd::string::StringExecFns;

use crate::sqlz::query::{read_options_valid, ContinueFrom, SqlzRow};
use crate::sqlz::schema::PrimaryKeyConstraint;
use crate::sqlz::types::SqlzValue;
use crate::support::owned;

verus! {

/// The statement that creates schema `schema_name` unless it exists.
pub fn create_schema_sql(schema_name: &str) -> (sql: String)
    ensures
        sql@ == "CREATE SCHEMA IF NOT EXISTS "@ + schema_name@,
{
    owned("CREATE SCHEMA IF NOT EXISTS ").concat(schema_name)
}

/// Where the read after a batch of `rows` starts, when `batch_size` rows were
/// asked for: after the last row, by the values of its primary key columns,
/// when the batch is full; nowhere when it is not, since the table has no
/// more rows.
pub fn continue_from_batch(pk: PrimaryKeyConstraint, rows: &Vec<SqlzRow>, batch_size: usize) -> (r:
    Option<ContinueFrom>)
    requires
        rows@.len() == batch_size ==> {
            &&& rows@.len() > 0
            &&& forall|k: int|
                0 <= k < pk.columns@.len() ==> rows@.last().value_of(
                    (#[trigger] pk.columns@[k]).name@,
                ) is Some
        },
    ensures
        rows@.len() != batch_size ==> r is None,
        rows@.len() == batch_size ==> (r matches Some(c) && c.primary_key == pk
            && c.where_params@.len() == pk.columns@.len() && forall|k: int|
            0 <= k < pk.columns@.len() ==> (#[trigger] c.where_params@[k])@ == rows@.last().value_of(
                pk.columns@[k].name@,
            ).unwrap()@),
        r matches Some(c) ==> read_options_valid(batch_size, Some(c)),
{
    if rows.len() != batch_size {
        return None;
    }
    let last_row = &rows[rows.len() - 1];
    let mut where_params: Vec<SqlzValue> = Vec::new();
    let mut k: usize = 0;
    while k < pk.columns.len()
        invariant
            k <= pk.columns@.len(),
            rows@.len() > 0,
            *last_row == rows@.last(),
            forall|m: int|
                0 <= m < pk.columns@.len() ==> last_row.value_of((#[trigger] pk.columns@[m]).name@) is Some,
            where_params@.len() == k,
            forall|m: int|
                0 <= m < k ==> (#[trigger] where_params@[m])@ == last_row.value_of(
                    pk.columns@[m].name@,
                ).unwrap()@,
        decreases pk.columns.len() - k,
    {
        let ghost name = pk.columns@[k as int].name@;
        assert(last_row.value_of(name) is Some);
        let value = last_row.get(pk.columns[k].name.as_str()).unwrap();
        where_params.push(value.clone());
        k += 1;
    }
    Some(ContinueFrom { primary_key: pk, where_params })
}

} // verus!
