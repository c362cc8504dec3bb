//! `CREATE TABLE`.

use crate::catalog_manager::{clone_columns, CatalogManager, CatalogModel};
use crate::query::plan::TableCreationInfo;
use crate::query::process::qualified;
use crate::results::{Message, QueryError, QueryErrorModel, QueryEvent, QueryEventModel, Sender,
    SystemResult};
use crate::text::concat3;
use crate::ColumnDefinitionModel;
use vstd::prelude::*;

verus! {

/// The message that creating the table `schema.table` sends.
pub open spec fn create_table_message(
    catalog: CatalogModel,
    schema: Seq<char>,
    table: Seq<char>,
) -> Message {
    match catalog.table_exists(schema, table) {
        None => Err(QueryErrorModel::SchemaDoesNotExist(schema)),
        Some((_, Some(_))) => Err(QueryErrorModel::TableAlreadyExists(qualified(schema, table))),
        Some((_, None)) => Ok(QueryEventModel::TableCreated),
    }
}

/// The command that creates a table.
pub struct CreateTableCommand {
    table_info: TableCreationInfo,
}

impl CreateTableCommand {
    pub fn new(table_info: TableCreationInfo) -> (command: CreateTableCommand)
        ensures
            command.schema_name() == table_info.schema_name@,
            command.table_name() == table_info.table_name@,
            command.columns() == table_info.columns.deep_view(),
    {
        CreateTableCommand { table_info }
    }

    /// The schema of the table to create.
    pub closed spec fn schema_name(&self) -> Seq<char> {
        self.table_info.schema_name@
    }

    /// The name of the table to create.
    pub closed spec fn table_name(&self) -> Seq<char> {
        self.table_info.table_name@
    }

    /// The columns of the table to create.
    pub closed spec fn columns(&self) -> Seq<ColumnDefinitionModel> {
        self.table_info.columns.deep_view()
    }

    /// Creates the table without rows and sends `TableCreated`; where the
    /// schema is missing or the name is taken, nothing changes and the error
    /// is sent.
    pub fn execute(&self, storage: &mut CatalogManager, sender: &mut Sender) -> (done:
        SystemResult<()>)
        ensures
            done is Ok,
            final(storage)@ == old(storage)@.create_table(
                self.schema_name(),
                self.table_name(),
                self.columns(),
            ),
            final(sender)@ == old(sender)@.push(
                create_table_message(old(storage)@, self.schema_name(), self.table_name()),
            ),
    {
        let schema_name = self.table_info.schema_name.as_str();
        let table_name = self.table_info.table_name.as_str();
        match storage.table_exists(schema_name, table_name) {
            None => {
                sender.send(Err(QueryError::SchemaDoesNotExist(schema_name.to_owned())));
            },
            Some((_, Some(_))) => {
                sender.send(
                    Err(QueryError::TableAlreadyExists(concat3(schema_name, ".", table_name))),
                );
            },
            Some((_, None)) => {
                storage.create_table(
                    schema_name,
                    table_name,
                    clone_columns(&self.table_info.columns),
                );
                sender.send(Ok(QueryEvent::TableCreated));
            },
        }
        Ok(())
    }
}

} // verus!
