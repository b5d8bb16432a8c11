use vstd::prelude::*;

verus! {

pub const NATIVE_TYPE_DECIMAL: &'static str = "decimal";
pub const NATIVE_TYPE_NUMERIC: &'static str = "numeric";

pub const FK_ACTION_CASCADE: &'static str = "CASCADE";
pub const FK_ACTION_SET_NULL: &'static str = "SET NULL";
pub const FK_ACTION_SET_DEFAULT: &'static str = "SET DEFAULT";
pub const FK_ACTION_RESTRICT: &'static str = "RESTRICT";

pub const CONSTRAINT_PK: &'static str = "PRIMARY KEY";
pub const CONSTRAINT_UNIQUE: &'static str = "UNIQUE";

/// The schema of a table that names none.
pub const SCHEMA_PUBLIC: &'static str = "public";

/// The catalog's answer for a true flag.
pub const FLAG_YES: &'static str = "YES";

} // verus!
