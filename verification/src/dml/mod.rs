//! Commands that read and change rows.

pub mod delete;
pub mod insert;
pub mod select;
pub mod update;
