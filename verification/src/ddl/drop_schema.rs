//! `DROP SCHEMA`.

use crate::catalog_manager::{CatalogManager, CatalogModel};
use crate::query::SchemaId;
use crate::results::{Message, QueryError, QueryErrorModel, QueryEvent, QueryEventModel, Sender,
    SystemResult};
use vstd::prelude::*;

verus! {

/// The message that dropping the schema `name` sends.
pub open spec fn drop_schema_message(catalog: CatalogModel, name: Seq<char>) -> Message {
    if catalog.schema_exists(name) {
        Ok(QueryEventModel::SchemaDropped)
    } else {
        Err(QueryErrorModel::SchemaDoesNotExist(name))
    }
}

/// The command that drops a schema. The schema leaves with the tables that
/// it holds, with `CASCADE` and without it.
pub struct DropSchemaCommand {
    name: SchemaId,
    cascade: bool,
}

impl DropSchemaCommand {
    pub fn new(name: SchemaId, cascade: bool) -> (command: DropSchemaCommand)
        ensures
            command.schema_name() == name@,
            command.cascade() == cascade,
    {
        DropSchemaCommand { name, cascade }
    }

    /// The name of the schema to drop.
    pub closed spec fn schema_name(&self) -> Seq<char> {
        self.name@
    }

    /// Whether the statement said `CASCADE`.
    pub closed spec fn cascade(&self) -> bool {
        self.cascade
    }

    /// Drops the schema and sends `SchemaDropped`; where it is missing,
    /// nothing changes and `SchemaDoesNotExist` is sent.
    pub fn execute(&self, storage: &mut CatalogManager, sender: &mut Sender) -> (done:
        SystemResult<()>)
        ensures
            done is Ok,
            final(storage)@ == old(storage)@.drop_schema(self.schema_name()),
            final(sender)@ == old(sender)@.push(
                drop_schema_message(old(storage)@, self.schema_name()),
            ),
    {
        if storage.drop_schema(self.name.name()) {
            sender.send(Ok(QueryEvent::SchemaDropped));
        } else {
            sender.send(Err(QueryError::SchemaDoesNotExist(self.name.name().to_owned())));
        }
        Ok(())
    }
}

} // verus!
