//! `CREATE SCHEMA`.

use crate::catalog_manager::{CatalogManager, CatalogModel};
use crate::query::plan::SchemaCreationInfo;
use crate::results::{Message, QueryError, QueryErrorModel, QueryEvent, QueryEventModel, Sender,
    SystemResult};
use vstd::prelude::*;

verus! {

/// The message that creating the schema `name` sends.
pub open spec fn create_schema_message(catalog: CatalogModel, name: Seq<char>) -> Message {
    if catalog.schema_exists(name) {
        Err(QueryErrorModel::SchemaAlreadyExists(name))
    } else {
        Ok(QueryEventModel::SchemaCreated)
    }
}

/// The command that creates a schema.
pub struct CreateSchemaCommand {
    schema_info: SchemaCreationInfo,
}

impl CreateSchemaCommand {
    pub fn new(schema_info: SchemaCreationInfo) -> (command: CreateSchemaCommand)
        ensures
            command.schema_name() == schema_info.schema_name@,
    {
        CreateSchemaCommand { schema_info }
    }

    /// The name of the schema to create.
    pub closed spec fn schema_name(&self) -> Seq<char> {
        self.schema_info.schema_name@
    }

    /// Creates the schema and sends `SchemaCreated`; where the name is
    /// taken, nothing changes and `SchemaAlreadyExists` is sent.
    pub fn execute(&self, storage: &mut CatalogManager, sender: &mut Sender) -> (done:
        SystemResult<()>)
        ensures
            done is Ok,
            final(storage)@ == old(storage)@.create_schema(self.schema_name()),
            final(sender)@ == old(sender)@.push(
                create_schema_message(old(storage)@, self.schema_name()),
            ),
    {
        if storage.create_schema(self.schema_info.schema_name.as_str()) {
            sender.send(Ok(QueryEvent::SchemaCreated));
        } else {
            sender.send(Err(QueryError::SchemaAlreadyExists(self.schema_info.schema_name.clone())));
        }
        Ok(())
    }
}

} // verus!
