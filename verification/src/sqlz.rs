pub mod error;
pub mod migration;
pub mod provider;
pub mod query;
pub mod schema;
pub mod types;

pub use self::error::{SqlzError, SqlzResult};
pub use self::migration::MigrationPlan;
pub use self::provider::Provider;
pub use self::query::{BatchQueryResult, ContinueFrom, RowReadOptions, SqlzRow};
pub use self::schema::{Column, ConstraintType, PrimaryKeyConstraint, Table};
pub use self::types::{ForeignKeyAction, GenericType, GenericTypeView, SqlzValue, SqlzValueView};
