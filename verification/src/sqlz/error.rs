use vstd::prelude::*;
use vstd::string::StringExecFns;

use crate::support::owned;

verus! {

/// The errors of the library and of its providers.
#[derive(Debug)]
pub enum SqlzError {
    ConnectionError(String),
    /// An error of the underlying database, by its message.
    DatabaseError(String),
    MappingError(String),
    ValidationError(String),
    MissingFkTable(String),
    /// The table's name, the expected and the actual primary key columns.
    DifferentPkColumns(String, String, String),
}

pub type SqlzResult<T> = Result<T, SqlzError>;

impl SqlzError {
    /// The human-readable message of the error.
    pub open spec fn message(&self) -> Seq<char> {
        match self {
            SqlzError::ConnectionError(msg) => "Connection error: "@ + msg@,
            SqlzError::DatabaseError(err) => "Underlying database error: "@ + err@,
            SqlzError::MappingError(msg) => "Mapping error: "@ + msg@,
            SqlzError::ValidationError(msg) => "Validation error: "@ + msg@,
            SqlzError::MissingFkTable(table_name) => "Missing foreign key table: "@ + table_name@,
            SqlzError::DifferentPkColumns(table_name, expected, actual) =>
                "Different primary key columns for table "@ + table_name@ + ": expected ["@
                    + expected@ + "] but found ["@ + actual@ + "]"@,
        }
    }

    /// Renders the error as its human-readable message.
    pub fn to_string(&self) -> (r: String)
        ensures
            r@ == self.message(),
    {
        match self {
            SqlzError::ConnectionError(msg) => owned("Connection error: ").concat(msg.as_str()),
            SqlzError::DatabaseError(err) => owned("Underlying database error: ").concat(
                err.as_str(),
            ),
            SqlzError::MappingError(msg) => owned("Mapping error: ").concat(msg.as_str()),
            SqlzError::ValidationError(msg) => owned("Validation error: ").concat(msg.as_str()),
            SqlzError::MissingFkTable(table_name) => owned("Missing foreign key table: ").concat(
                table_name.as_str(),
            ),
            SqlzError::DifferentPkColumns(table_name, expected, actual) => {
                let mut s = owned("Different primary key columns for table ");
                s.append(table_name.as_str());
                s.append(": expected [");
                s.append(expected.as_str());
                s.append("] but found [");
                s.append(actual.as_str());
                s.append("]");
                s
            },
        }
    }
}

} // verus!
