//! Commands that change the catalog's schemas and tables.

pub mod create_schema;
pub mod create_table;
pub mod drop_schema;
pub mod drop_table;
