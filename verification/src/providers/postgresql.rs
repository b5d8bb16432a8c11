pub mod constants;
pub mod helper;
pub mod introspection;
pub mod lookup;
pub mod pg_type;
pub mod provider;
pub mod queries;
pub mod sql_text;
