//! `DROP TABLE`.

use crate::catalog_manager::{CatalogManager, CatalogModel};
use crate::query::process::qualified;
use crate::query::TableId;
use crate::results::{Message, QueryError, QueryErrorModel, QueryEvent, QueryEventModel, Sender,
    SystemResult};
use crate::text::concat3;
use vstd::prelude::*;

verus! {

/// The message that dropping the table `schema.table` sends.
pub open spec fn drop_table_message(
    catalog: CatalogModel,
    schema: Seq<char>,
    table: Seq<char>,
) -> Message {
    match catalog.table_exists(schema, table) {
        None => Err(QueryErrorModel::SchemaDoesNotExist(schema)),
        Some((_, None)) => Err(QueryErrorModel::TableDoesNotExist(qualified(schema, table))),
        Some((_, Some(_))) => Ok(QueryEventModel::TableDropped),
    }
}

/// The command that drops a table.
pub struct DropTableCommand {
    name: TableId,
}

impl DropTableCommand {
    pub fn new(name: TableId) -> (command: DropTableCommand)
        ensures
            command.table_id() == name@,
    {
        DropTableCommand { name }
    }

    /// The schema's name and the name of the table to drop.
    pub closed spec fn table_id(&self) -> (Seq<char>, Seq<char>) {
        self.name@
    }

    /// Drops the table with its rows and sends `TableDropped`; where the
    /// schema or the table is missing, nothing changes and the error is
    /// sent.
    pub fn execute(&self, storage: &mut CatalogManager, sender: &mut Sender) -> (done:
        SystemResult<()>)
        ensures
            done is Ok,
            final(storage)@ == old(storage)@.drop_table(self.table_id().0, self.table_id().1),
            final(sender)@ == old(sender)@.push(
                drop_table_message(old(storage)@, self.table_id().0, self.table_id().1),
            ),
    {
        let schema_name = self.name.schema_name();
        let table_name = self.name.name();
        match storage.table_exists(schema_name, table_name) {
            None => {
                sender.send(Err(QueryError::SchemaDoesNotExist(schema_name.to_owned())));
            },
            Some((_, None)) => {
                sender.send(
                    Err(QueryError::TableDoesNotExist(concat3(schema_name, ".", table_name))),
                );
            },
            Some((_, Some(_))) => {
                storage.drop_table(schema_name, table_name);
                sender.send(Ok(QueryEvent::TableDropped));
            },
        }
        Ok(())
    }
}

} // verus!
