use vstd::prelude::*;

use crate::sqlz::error::{SqlzError, SqlzResult};
use crate::sqlz::schema::PrimaryKeyConstraint;
use crate::sqlz::types::SqlzValue;
use crate::support::{is_first_named, lemma_first_named_unique, owned, str_eq};

verus! {

/// One row of a table: the names of its columns and their values, in order.
pub struct SqlzRow {
    pub columns: Vec<String>,
    pub values: Vec<SqlzValue>,
}

/// The names of a row's columns.
pub open spec fn string_views(columns: Seq<String>) -> Seq<Seq<char>> {
    columns.map_values(|c: String| c@)
}

impl SqlzRow {
    /// The value of the first column called `name`, if the row has such a
    /// column and a value at its position.
    pub open spec fn value_of(&self, name: Seq<char>) -> Option<SqlzValue> {
        if exists|i: int| is_first_named(string_views(self.columns@), name, i) {
            let i = choose|i: int| is_first_named(string_views(self.columns@), name, i);
            if i < self.values@.len() {
                Some(self.values@[i])
            } else {
                None
            }
        } else {
            None
        }
    }

    /// The value of the first column called `column_name`.
    pub fn get(&self, column_name: &str) -> (r: Option<&SqlzValue>)
        ensures
            match r {
                Some(v) => self.value_of(column_name@) == Some(*v),
                None => self.value_of(column_name@) is None,
            },
    {
        let mut i: usize = 0;
        while i < self.columns.len()
            invariant
                i <= self.columns@.len(),
                forall|j: int| 0 <= j < i ==> #[trigger] string_views(self.columns@)[j] != column_name@,
            decreases self.columns.len() - i,
        {
            if str_eq(self.columns[i].as_str(), column_name) {
                assert(is_first_named(string_views(self.columns@), column_name@, i as int));
                proof {
                    lemma_first_named_unique(string_views(self.columns@), column_name@, i as int);
                }
                if i < self.values.len() {
                    return Some(&self.values[i]);
                } else {
                    return None;
                }
            }
            i += 1;
        }
        None
    }
}

/// Where a batched read goes on: after the row whose primary key columns
/// hold `where_params`.
pub struct ContinueFrom {
    pub primary_key: PrimaryKeyConstraint,
    pub where_params: Vec<SqlzValue>,
}

impl ContinueFrom {
    pub fn new(pk: PrimaryKeyConstraint, values: Vec<SqlzValue>) -> (r: Self)
        ensures
            r.primary_key == pk,
            r.where_params == values,
    {
        Self { primary_key: pk, where_params: values }
    }
}

/// How a batch of rows is read: how many rows at most, and where to start.
pub struct RowReadOptions {
    pub batch_size: usize,
    pub continue_from: Option<ContinueFrom>,
}

/// The rows of one batch, and where the next batch starts, if there is one.
pub struct BatchQueryResult {
    pub rows: Vec<SqlzRow>,
    pub continue_from: Option<ContinueFrom>,
}

/// Whether read options with these fields can be used: the batch size is
/// positive, and a starting point gives one value per primary key column.
pub open spec fn read_options_valid(batch_size: usize, continue_from: Option<ContinueFrom>) -> bool {
    &&& batch_size > 0
    &&& continue_from matches Some(c) ==> c.where_params@.len() == c.primary_key.columns@.len()
}

impl RowReadOptions {
    /// Checks the options before a read.
    pub fn validate(&self) -> (r: SqlzResult<()>)
        ensures
            r is Ok <==> read_options_valid(self.batch_size, self.continue_from),
            r is Ok ==> self.batch_size > 0,
            r is Ok ==> (self.continue_from matches Some(c) ==> c.where_params@.len()
                == c.primary_key.columns@.len()),
            self.batch_size == 0 ==> (r matches Err(SqlzError::ValidationError(m)) && m@
                == "batch_size must be greater than 0"@),
            self.batch_size > 0 && !read_options_valid(self.batch_size, self.continue_from)
                ==> (r matches Err(SqlzError::ValidationError(m)) && m@
                == "where_params length must match primary key columns length"@),
    {
        if self.batch_size == 0 {
            return Err(SqlzError::ValidationError(owned("batch_size must be greater than 0")));
        }
        if let Some(ContinueFrom { primary_key, where_params }) = &self.continue_from {
            if where_params.len() != primary_key.columns.len() {
                return Err(
                    SqlzError::ValidationError(
                        owned("where_params length must match primary key columns length"),
                    ),
                );
            }
        }
        Ok(())
    }
}

impl Default for RowReadOptions {
    fn default() -> (r: Self)
        ensures
            r.batch_size == 100,
            r.continue_from is None,
    {
        Self { batch_size: 100, continue_from: None }
    }
}

/// Read options are accepted exactly when the batch size is positive and a
/// starting point gives one value per primary key column: fewer values and
/// more values are both refused.
pub proof fn lemma_read_options_need_one_value_per_key_column(batch_size: usize, c: ContinueFrom)
    ensures
        read_options_valid(batch_size, Some(c)) <==> (batch_size > 0 && c.where_params@.len()
            == c.primary_key.columns@.len()),
        c.where_params@.len() > c.primary_key.columns@.len() ==> !read_options_valid(
            batch_size,
            Some(c),
        ),
        c.where_params@.len() < c.primary_key.columns@.len() ==> !read_options_valid(
            batch_size,
            Some(c),
        ),
        read_options_valid(batch_size, None) <==> batch_size > 0,
        !read_options_valid(0, Some(c)),
{
}

/// A row's value of a column name is the value at the position of the first
/// column of that name, when the row has one there; a row without a column
/// of that name has no value of it.
pub proof fn lemma_row_value_of_first_column(row: SqlzRow, name: Seq<char>, i: int)
    ensures
        0 <= i < row.columns@.len() && i < row.values@.len() && row.columns@[i]@ == name && (forall|j: int|
            0 <= j < i ==> (#[trigger] row.columns@[j])@ != name) ==> row.value_of(name) == Some(
            row.values@[i],
        ),
        0 <= i < row.columns@.len() && i >= row.values@.len() && row.columns@[i]@ == name && (forall|
            j: int,
        | 0 <= j < i ==> (#[trigger] row.columns@[j])@ != name) ==> row.value_of(name) is None,
        (forall|j: int| 0 <= j < row.columns@.len() ==> (#[trigger] row.columns@[j])@ != name)
            ==> row.value_of(name) is None,
{
    let names = string_views(row.columns@);
    if 0 <= i < row.columns@.len() && row.columns@[i]@ == name && (forall|j: int|
        0 <= j < i ==> (#[trigger] row.columns@[j])@ != name) {
        assert(is_first_named(names, name, i));
        lemma_first_named_unique(names, name, i);
    }
    if forall|j: int| 0 <= j < row.columns@.len() ==> (#[trigger] row.columns@[j])@ != name {
        assert forall|k: int| !is_first_named(names, name, k) by {
            if 0 <= k < names.len() {
                assert(names[k] == row.columns@[k]@);
            }
        }
    }
}

} // verus!
