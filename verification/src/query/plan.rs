//! Plans: what the executor must do for one statement.

use crate::ast::{Query, QueryModel, Statement, StatementModel};
use crate::query::{SchemaId, TableId};
use crate::{ColumnDefinition, ColumnDefinitionModel};
use vstd::prelude::*;

verus! {

/// The schema that a `CREATE SCHEMA` adds.
#[derive(Debug, PartialEq, Eq)]
pub struct SchemaCreationInfo {
    pub schema_name: String,
}

/// The table that a `CREATE TABLE` adds.
#[derive(Debug, PartialEq, Eq)]
pub struct TableCreationInfo {
    pub schema_name: String,
    pub table_name: String,
    pub columns: Vec<ColumnDefinition>,
}

/// The target and the source of an `INSERT`.
#[derive(Debug, PartialEq, Eq)]
pub struct TableInserts {
    pub table_id: TableId,
    pub column_indices: Vec<String>,
    pub input: Query,
}

/// A validated statement, ready to be executed.
#[derive(Debug, PartialEq, Eq)]
pub enum Plan {
    CreateSchema(SchemaCreationInfo),
    CreateTable(TableCreationInfo),
    /// Each schema with its `CASCADE` flag.
    DropSchemas(Vec<(SchemaId, bool)>),
    DropTables(Vec<TableId>),
    Insert(TableInserts),
    /// A statement that is left to the executor as it is.
    NotProcessed(Statement),
}

/// The mathematical value of a [`Plan`].
pub enum PlanModel {
    CreateSchema { schema_name: Seq<char> },
    CreateTable {
        schema_name: Seq<char>,
        table_name: Seq<char>,
        columns: Seq<ColumnDefinitionModel>,
    },
    DropSchemas(Seq<(Seq<char>, bool)>),
    DropTables(Seq<(Seq<char>, Seq<char>)>),
    Insert { table_id: (Seq<char>, Seq<char>), column_indices: Seq<Seq<char>>, input: QueryModel },
    NotProcessed(StatementModel),
}

impl View for Plan {
    type V = PlanModel;

    open spec fn view(&self) -> PlanModel {
        match self {
            Plan::CreateSchema(info) => PlanModel::CreateSchema { schema_name: info.schema_name@ },
            Plan::CreateTable(info) => PlanModel::CreateTable {
                schema_name: info.schema_name@,
                table_name: info.table_name@,
                columns: info.columns.deep_view(),
            },
            Plan::DropSchemas(schemas) => PlanModel::DropSchemas(schemas.deep_view()),
            Plan::DropTables(tables) => PlanModel::DropTables(tables.deep_view()),
            Plan::Insert(inserts) => PlanModel::Insert {
                table_id: inserts.table_id@,
                column_indices: inserts.column_indices.deep_view(),
                input: inserts.input@,
            },
            Plan::NotProcessed(statement) => PlanModel::NotProcessed(statement@),
        }
    }
}

} // verus!
