pub mod postgresql;
