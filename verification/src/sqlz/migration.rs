use vstd::hash_map::StringHashMap;
use vstd::prelude::*;

use crate::sqlz::schema::Table;

verus! {

/// Whether `types` names a target type for every column of `table`.
pub open spec fn covers_columns(table: &Table, types: Map<Seq<char>, String>) -> bool {
    forall|i: int|
        0 <= i < table.columns@.len() ==> types.contains_key(#[trigger] table.columns@[i].name@)
}

/// How the columns of a table are to be created on the target: the target's
/// native type for each column, by column name.
pub struct MigrationPlan<'a> {
    pub table: &'a Table,
    pub target_column_type_map: StringHashMap<String>,
}

impl<'a> MigrationPlan<'a> {
    /// Whether the plan names a target type for every column of its table.
    pub open spec fn covers_all_columns(&self) -> bool {
        covers_columns(self.table, self.target_column_type_map@)
    }

    /// A plan for `table` that maps no column yet.
    pub fn new(table: &'a Table) -> (r: Self)
        ensures
            r.table == table,
            r.target_column_type_map@ == Map::<Seq<char>, String>::empty(),
    {
        Self { table, target_column_type_map: StringHashMap::new() }
    }

    /// Whether every column of the table has a target type.
    pub fn is_valid(&self) -> (r: bool)
        ensures
            r == self.covers_all_columns(),
    {
        let mut i: usize = 0;
        while i < self.table.columns.len()
            invariant
                i <= self.table.columns@.len(),
                forall|j: int|
                    0 <= j < i ==> self.target_column_type_map@.contains_key(
                        #[trigger] self.table.columns@[j].name@,
                    ),
            decreases self.table.columns.len() - i,
        {
            if !self.target_column_type_map.contains_key(self.table.columns[i].name.as_str()) {
                return false;
            }
            i += 1;
        }
        true
    }
}

/// A new plan, which maps no column, is valid exactly when its table has no
/// columns.
pub proof fn lemma_new_plan_valid_iff_no_columns(table: &Table)
    ensures
        covers_columns(table, Map::<Seq<char>, String>::empty()) <==> table.columns@.len() == 0,
{
    if table.columns@.len() > 0 {
        assert(!Map::<Seq<char>, String>::empty().contains_key(table.columns@[0].name@));
    }
}

/// Adding a target type to a valid plan keeps it valid.
pub proof fn lemma_insert_keeps_plan_valid(
    table: &Table,
    types: Map<Seq<char>, String>,
    column: Seq<char>,
    native_type: String,
)
    requires
        covers_columns(table, types),
    ensures
        covers_columns(table, types.insert(column, native_type)),
{
}

} // verus!
