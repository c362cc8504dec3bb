//! `DELETE`: every row of one table.

use crate::ast::ObjectName;
use crate::catalog_manager::{CatalogManager, CatalogModel};
use crate::query::process::{check_table, checked_table};
use crate::results::{Message, QueryEvent, QueryEventModel, Sender, SystemResult};
use vstd::prelude::*;

verus! {

/// The catalog after a `DELETE` from the table that `table_name` addresses.
pub open spec fn delete_catalog(catalog: CatalogModel, table_name: Seq<Seq<char>>) -> CatalogModel {
    match checked_table(catalog, table_name) {
        Ok(table_id) => catalog.delete_all_from(table_id.0, table_id.1),
        Err(_) => catalog,
    }
}

/// The message that a `DELETE` sends.
pub open spec fn delete_message(catalog: CatalogModel, table_name: Seq<Seq<char>>) -> Message {
    match checked_table(catalog, table_name) {
        Ok(table_id) => Ok(
            QueryEventModel::RecordsDeleted(catalog.full_scan(table_id.0, table_id.1).len()),
        ),
        Err(error) => Err(error),
    }
}

/// The command that deletes rows.
pub struct DeleteCommand {
    table_name: ObjectName,
}

impl DeleteCommand {
    pub fn new(table_name: ObjectName) -> (command: DeleteCommand)
        ensures
            command.table_name() == table_name@,
    {
        DeleteCommand { table_name }
    }

    /// The name of the table, as the statement gives it.
    pub closed spec fn table_name(&self) -> Seq<Seq<char>> {
        self.table_name@
    }

    /// Removes every row of the table and sends `RecordsDeleted` with their
    /// number; where the name addresses no table, nothing changes and the
    /// error is sent.
    pub fn execute(&self, storage: &mut CatalogManager, sender: &mut Sender) -> (done:
        SystemResult<()>)
        ensures
            done is Ok,
            final(storage)@ == delete_catalog(old(storage)@, self.table_name()),
            final(sender)@ == old(sender)@.push(delete_message(old(storage)@, self.table_name())),
    {
        let table_id = match check_table(&self.table_name, storage, sender) {
            Some(table_id) => table_id,
            None => {
                return Ok(());
            },
        };
        let deleted = storage.delete_all_from(table_id.schema_name(), table_id.name());
        sender.send(Ok(QueryEvent::RecordsDeleted(deleted.unwrap())));
        Ok(())
    }
}

} // verus!
