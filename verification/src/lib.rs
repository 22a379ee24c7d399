//! Rows that the catalog writes into its built-in system tables.
//!
//! Each catalog object (database, schema, role, cluster and every kind of
//! item) is described by one or more rows of built-in tables such as
//! `mz_tables` or `mz_columns`. Creating an object adds those rows with a
//! positive diff; dropping it retracts the same rows with a negative diff.

pub mod ids;
pub mod datum;
pub mod lookup;
pub mod catalog;
pub mod builtin_table_updates;
pub mod laws;
