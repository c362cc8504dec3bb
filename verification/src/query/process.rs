//! The query processor: it turns a statement into a plan and validates it
//! against the catalog. A statement that is rejected leaves one error with
//! the sender.

use crate::ast::{ident_values, values_of, ColumnDef, ColumnDefModel, DataType, DataTypeModel,
    ObjectName, ObjectType, Statement, StatementModel};
use crate::catalog_manager::{CatalogManager, CatalogModel};
use crate::query::plan::{Plan, PlanModel, SchemaCreationInfo, TableCreationInfo, TableInserts};
use crate::query::{resolve_schema, resolve_table, SchemaId, TableId};
use crate::results::{QueryError, QueryErrorModel, Sender};
use crate::sql_types::SqlType;
use crate::text::{concat, concat3, str_eq};
use crate::{ColumnDefinition, ColumnDefinitionModel};
use vstd::prelude::*;

verus! {

/// A table's name after its schema's name, with a dot between them.
pub open spec fn qualified(schema: Seq<char>, table: Seq<char>) -> Seq<char> {
    schema + "."@ + table
}

/// The diagnostic for a column type that the engine does not have.
pub open spec fn unsupported_type_message(type_text: Seq<char>) -> Seq<char> {
    type_text + " type is not supported"@
}

/// The engine's type for a type of the statement, or the diagnostic where it
/// has none. A plain integer column starts its sequence at the least value of
/// its type, a `serial` column at 1; a character column without a length has
/// the length 255.
pub open spec fn sql_type_of(data_type: DataTypeModel) -> Result<SqlType, Seq<char>> {
    match data_type {
        DataTypeModel::SmallInt => Ok(SqlType::SmallInt(i16::MIN)),
        DataTypeModel::Int => Ok(SqlType::Integer(i32::MIN)),
        DataTypeModel::BigInt => Ok(SqlType::BigInt(i64::MIN)),
        DataTypeModel::Char(len) => Ok(
            SqlType::Char(
                match len {
                    Some(n) => n,
                    None => 255,
                },
            ),
        ),
        DataTypeModel::Varchar(len) => Ok(
            SqlType::VarChar(
                match len {
                    Some(n) => n,
                    None => 255,
                },
            ),
        ),
        DataTypeModel::Boolean => Ok(SqlType::Bool),
        DataTypeModel::Custom(name) => if name == "serial"@ {
            Ok(SqlType::Integer(1))
        } else if name == "smallserial"@ {
            Ok(SqlType::SmallInt(1))
        } else if name == "bigserial"@ {
            Ok(SqlType::BigInt(1))
        } else {
            Err(unsupported_type_message(name))
        },
        DataTypeModel::Other(text) => Err(unsupported_type_message(text)),
    }
}

/// The column definitions for the columns of a `CREATE TABLE`, or the
/// diagnostic of the first column whose type the engine does not have.
pub open spec fn resolved_columns(columns: Seq<ColumnDefModel>) -> Result<
    Seq<ColumnDefinitionModel>,
    Seq<char>,
>
    decreases columns.len(),
{
    if columns.len() == 0 {
        Ok(Seq::empty())
    } else {
        match resolved_columns(columns.drop_last()) {
            Err(message) => Err(message),
            Ok(before) => match sql_type_of(columns.last().data_type) {
                Err(message) => Err(message),
                Ok(sql_type) => Ok(
                    before.push(ColumnDefinitionModel { name: columns.last().name, sql_type }),
                ),
            },
        }
    }
}

/// The existing schema that `name` addresses, or the error for it.
pub open spec fn checked_schema(catalog: CatalogModel, name: Seq<Seq<char>>) -> Result<
    Seq<char>,
    QueryErrorModel,
> {
    match resolve_schema(name) {
        Err(message) => Err(QueryErrorModel::SyntaxError(message)),
        Ok(schema) => if catalog.schema_exists(schema) {
            Ok(schema)
        } else {
            Err(QueryErrorModel::SchemaDoesNotExist(schema))
        },
    }
}

/// The existing table that `name` addresses, or the error for it: the
/// schema is looked for first, then the table.
pub open spec fn checked_table(catalog: CatalogModel, name: Seq<Seq<char>>) -> Result<
    (Seq<char>, Seq<char>),
    QueryErrorModel,
> {
    match resolve_table(name) {
        Err(message) => Err(QueryErrorModel::SyntaxError(message)),
        Ok((schema, table)) => match catalog.table_exists(schema, table) {
            None => Err(QueryErrorModel::SchemaDoesNotExist(schema)),
            Some((_, None)) => Err(QueryErrorModel::TableDoesNotExist(qualified(schema, table))),
            Some((_, Some(_))) => Ok((schema, table)),
        },
    }
}

/// The schemas that a `DROP SCHEMA` removes, each with the `CASCADE` flag,
/// or the error of the first name that addresses no existing schema.
pub open spec fn checked_schemas(
    catalog: CatalogModel,
    names: Seq<Seq<Seq<char>>>,
    cascade: bool,
) -> Result<Seq<(Seq<char>, bool)>, QueryErrorModel>
    decreases names.len(),
{
    if names.len() == 0 {
        Ok(Seq::empty())
    } else {
        match checked_schemas(catalog, names.drop_last(), cascade) {
            Err(error) => Err(error),
            Ok(before) => match checked_schema(catalog, names.last()) {
                Err(error) => Err(error),
                Ok(schema) => Ok(before.push((schema, cascade))),
            },
        }
    }
}

/// The tables that a `DROP TABLE` removes, or the error of the first name
/// that addresses no existing table.
pub open spec fn checked_tables(catalog: CatalogModel, names: Seq<Seq<Seq<char>>>) -> Result<
    Seq<(Seq<char>, Seq<char>)>,
    QueryErrorModel,
>
    decreases names.len(),
{
    if names.len() == 0 {
        Ok(Seq::empty())
    } else {
        match checked_tables(catalog, names.drop_last()) {
            Err(error) => Err(error),
            Ok(before) => match checked_table(catalog, names.last()) {
                Err(error) => Err(error),
                Ok(table) => Ok(before.push(table)),
            },
        }
    }
}

/// The plan for a `CREATE TABLE`, or the error that rejects it.
pub open spec fn create_table_plan(
    catalog: CatalogModel,
    name: Seq<Seq<char>>,
    columns: Seq<ColumnDefModel>,
) -> Result<PlanModel, QueryErrorModel> {
    match resolve_table(name) {
        Err(message) => Err(QueryErrorModel::SyntaxError(message)),
        Ok((schema, table)) => match catalog.table_exists(schema, table) {
            None => Err(QueryErrorModel::SchemaDoesNotExist(schema)),
            Some((_, Some(_))) => Err(
                QueryErrorModel::TableAlreadyExists(qualified(schema, table)),
            ),
            Some((_, None)) => match resolved_columns(columns) {
                Err(message) => Err(QueryErrorModel::FeatureNotSupported(message)),
                Ok(definitions) => Ok(
                    PlanModel::CreateTable {
                        schema_name: schema,
                        table_name: table,
                        columns: definitions,
                    },
                ),
            },
        },
    }
}

/// The plan for a `DROP`, or the error that rejects it.
pub open spec fn drop_plan(
    catalog: CatalogModel,
    object_type: ObjectType,
    names: Seq<Seq<Seq<char>>>,
    cascade: bool,
) -> Result<PlanModel, QueryErrorModel> {
    match object_type {
        ObjectType::Table => match checked_tables(catalog, names) {
            Err(error) => Err(error),
            Ok(tables) => Ok(PlanModel::DropTables(tables)),
        },
        ObjectType::Schema => match checked_schemas(catalog, names, cascade) {
            Err(error) => Err(error),
            Ok(schemas) => Ok(PlanModel::DropSchemas(schemas)),
        },
    }
}

/// The plan for a statement under a catalog, or the error that rejects it.
pub open spec fn plan_for(catalog: CatalogModel, statement: StatementModel) -> Result<
    PlanModel,
    QueryErrorModel,
> {
    match statement {
        StatementModel::CreateTable { name, columns, .. } => create_table_plan(
            catalog,
            name,
            columns,
        ),
        StatementModel::CreateSchema { schema_name } => match resolve_schema(schema_name) {
            Err(message) => Err(QueryErrorModel::SyntaxError(message)),
            Ok(schema) => if catalog.schema_exists(schema) {
                Err(QueryErrorModel::SchemaAlreadyExists(schema))
            } else {
                Ok(PlanModel::CreateSchema { schema_name: schema })
            },
        },
        StatementModel::Drop { object_type, names, cascade, .. } => drop_plan(
            catalog,
            object_type,
            names,
            cascade,
        ),
        StatementModel::Insert { table_name, columns, source } => match resolve_table(
            table_name,
        ) {
            Err(message) => Err(QueryErrorModel::SyntaxError(message)),
            Ok(table_id) => Ok(
                PlanModel::Insert {
                    table_id,
                    column_indices: ident_values(columns),
                    input: source,
                },
            ),
        },
        _ => Ok(PlanModel::NotProcessed(statement)),
    }
}

/// Whether `planned` and the messages after it are what planning `statement`
/// under `catalog` gives after the messages `before`: the plan and no
/// message, or no plan and the error as one more message.
pub open spec fn planning_outcome(
    expected: Result<PlanModel, QueryErrorModel>,
    planned: Result<Plan, ()>,
    before: Seq<crate::results::Message>,
    after: Seq<crate::results::Message>,
) -> bool {
    match expected {
        Ok(plan) => planned matches Ok(p) && p@ == plan && after == before,
        Err(error) => planned is Err && after == before.push(Err(error)),
    }
}

/// Resolves a name to an existing table; where it addresses none, the
/// error is sent.
pub fn check_table(name: &ObjectName, storage: &CatalogManager, sender: &mut Sender) -> (checked:
    Option<TableId>)
    ensures
        match checked_table(storage@, name@) {
            Ok(table) => checked matches Some(id) && id@ == table && final(sender)@ == old(
                sender,
            )@,
            Err(error) => checked is None && final(sender)@ == old(sender)@.push(Err(error)),
        },
{
    let table_id = match TableId::try_from(name) {
        Ok(table_id) => table_id,
        Err(error) => {
            sender.send(Err(QueryError::SyntaxError(error.0)));
            return None;
        },
    };
    match storage.table_exists(table_id.schema_name(), table_id.name()) {
        None => {
            sender.send(Err(QueryError::SchemaDoesNotExist(table_id.schema_name().to_owned())));
            None
        },
        Some((_, None)) => {
            sender.send(
                Err(
                    QueryError::TableDoesNotExist(
                        concat3(table_id.schema_name(), ".", table_id.name()),
                    ),
                ),
            );
            None
        },
        Some((_, Some(_))) => Some(table_id),
    }
}

/// The query processor.
#[derive(Debug)]
pub struct QueryProcessor {}

impl QueryProcessor {
    pub fn new() -> Self {
        Self {  }
    }

    /// Plans one statement. A rejected statement gives `Err` and sends the
    /// error that rejects it.
    pub fn process(
        &self,
        stmt: Statement,
        storage: &CatalogManager,
        sender: &mut Sender,
    ) -> (planned: Result<Plan, ()>)
        ensures
            planning_outcome(plan_for(storage@, stmt@), planned, old(sender)@, final(sender)@),
    {
        match stmt {
            Statement::CreateTable { name, columns, .. } => self.handle_create_table(
                name,
                &columns,
                storage,
                sender,
            ),
            Statement::CreateSchema { schema_name } => {
                let schema_id = match SchemaId::try_from(&schema_name) {
                    Ok(schema_id) => schema_id,
                    Err(error) => {
                        sender.send(Err(QueryError::SyntaxError(error.0)));
                        return Err(());
                    },
                };
                match storage.schema_exists(schema_id.name()) {
                    Some(_) => {
                        sender.send(
                            Err(QueryError::SchemaAlreadyExists(schema_id.name().to_owned())),
                        );
                        Err(())
                    },
                    None => Ok(
                        Plan::CreateSchema(
                            SchemaCreationInfo { schema_name: schema_id.name().to_owned() },
                        ),
                    ),
                }
            },
            Statement::Drop { object_type, names, cascade, .. } => self.handle_drop(
                &object_type,
                &names,
                cascade,
                storage,
                sender,
            ),
            Statement::Insert { table_name, columns, source } => match TableId::try_from(
                &table_name,
            ) {
                Ok(table_id) => Ok(
                    Plan::Insert(
                        TableInserts {
                            table_id,
                            column_indices: values_of(&columns),
                            input: source,
                        },
                    ),
                ),
                Err(error) => {
                    sender.send(Err(QueryError::SyntaxError(error.0)));
                    Err(())
                },
            },
            _ => Ok(Plan::NotProcessed(stmt)),
        }
    }

    /// The engine's type for a type of the statement; an unsupported type
    /// gives `Err` and sends `FeatureNotSupported`.
    fn sql_type_from_datatype(&self, datatype: &DataType, sender: &mut Sender) -> (mapped: Result<
        SqlType,
        (),
    >)
        ensures
            match sql_type_of(datatype@) {
                Ok(sql_type) => mapped == Ok::<SqlType, ()>(sql_type) && final(sender)@ == old(
                    sender,
                )@,
                Err(message) => mapped is Err && final(sender)@ == old(sender)@.push(
                    Err(QueryErrorModel::FeatureNotSupported(message)),
                ),
            },
    {
        match datatype {
            DataType::SmallInt => Ok(SqlType::SmallInt(i16::MIN)),
            DataType::Int => Ok(SqlType::Integer(i32::MIN)),
            DataType::BigInt => Ok(SqlType::BigInt(i64::MIN)),
            DataType::Char(len) => Ok(
                SqlType::Char(
                    match len {
                        Some(n) => *n,
                        None => 255,
                    },
                ),
            ),
            DataType::Varchar(len) => Ok(
                SqlType::VarChar(
                    match len {
                        Some(n) => *n,
                        None => 255,
                    },
                ),
            ),
            DataType::Boolean => Ok(SqlType::Bool),
            DataType::Custom(name) => {
                if str_eq(name.as_str(), "serial") {
                    Ok(SqlType::Integer(1))
                } else if str_eq(name.as_str(), "smallserial") {
                    Ok(SqlType::SmallInt(1))
                } else if str_eq(name.as_str(), "bigserial") {
                    Ok(SqlType::BigInt(1))
                } else {
                    sender.send(
                        Err(
                            QueryError::FeatureNotSupported(
                                concat(name.as_str(), " type is not supported"),
                            ),
                        ),
                    );
                    Err(())
                }
            },
            DataType::Other(text) => {
                sender.send(
                    Err(
                        QueryError::FeatureNotSupported(
                            concat(text.as_str(), " type is not supported"),
                        ),
                    ),
                );
                Err(())
            },
        }
    }

    /// The definitions of the columns of a `CREATE TABLE`; the first column
    /// of an unsupported type gives `Err` and sends `FeatureNotSupported`.
    fn resolve_column_definitions(
        &self,
        columns: &Vec<ColumnDef>,
        sender: &mut Sender,
    ) -> (resolved: Result<Vec<ColumnDefinition>, ()>)
        ensures
            match resolved_columns(columns.deep_view()) {
                Ok(definitions) => resolved matches Ok(found) && found.deep_view() == definitions
                    && final(sender)@ == old(sender)@,
                Err(message) => resolved is Err && final(sender)@ == old(sender)@.push(
                    Err(QueryErrorModel::FeatureNotSupported(message)),
                ),
            },
    {
        let mut column_defs: Vec<ColumnDefinition> = Vec::new();
        assert(columns.deep_view().take(0) =~= Seq::empty());
        assert(column_defs.deep_view() =~= Seq::empty());
        let mut i: usize = 0;
        while i < columns.len()
            invariant
                i <= columns@.len(),
                sender@ == old(sender)@,
                resolved_columns(columns.deep_view().take(i as int)) == Ok::<
                    Seq<ColumnDefinitionModel>,
                    Seq<char>,
                >(column_defs.deep_view()),
            decreases columns@.len() - i,
        {
            let ghost done = columns.deep_view().take(i as int);
            let ghost next = columns.deep_view().take(i + 1);
            let ghost before = column_defs.deep_view();
            proof {
                assert(next.drop_last() =~= done);
                assert(next.last() == columns@[i as int]@);
            }
            let sql_type = match self.sql_type_from_datatype(&columns[i].data_type, sender) {
                Ok(sql_type) => sql_type,
                Err(()) => {
                    proof {
                        lemma_resolved_columns_prefix_error(columns.deep_view(), i + 1);
                    }
                    return Err(());
                },
            };
            let column_definition = ColumnDefinition::new(columns[i].name.as_str(), sql_type);
            column_defs.push(column_definition);
            assert(column_defs.deep_view() =~= before.push(column_definition@));
            i += 1;
        }
        assert(columns.deep_view().take(i as int) =~= columns.deep_view());
        Ok(column_defs)
    }

    /// The plan for a `CREATE TABLE`; a rejected statement gives `Err` and
    /// sends the error.
    fn handle_create_table(
        &self,
        name: ObjectName,
        columns: &Vec<ColumnDef>,
        storage: &CatalogManager,
        sender: &mut Sender,
    ) -> (planned: Result<Plan, ()>)
        ensures
            planning_outcome(
                create_table_plan(storage@, name@, columns.deep_view()),
                planned,
                old(sender)@,
                final(sender)@,
            ),
    {
        let table_id = match TableId::try_from(&name) {
            Ok(table_id) => table_id,
            Err(error) => {
                sender.send(Err(QueryError::SyntaxError(error.0)));
                return Err(());
            },
        };
        let schema_name = table_id.schema_name();
        let table_name = table_id.name();
        match storage.table_exists(schema_name, table_name) {
            None => {
                sender.send(Err(QueryError::SchemaDoesNotExist(schema_name.to_owned())));
                Err(())
            },
            Some((_, Some(_))) => {
                sender.send(
                    Err(QueryError::TableAlreadyExists(concat3(schema_name, ".", table_name))),
                );
                Err(())
            },
            Some((_, None)) => {
                let columns = match self.resolve_column_definitions(columns, sender) {
                    Ok(columns) => columns,
                    Err(()) => {
                        return Err(());
                    },
                };
                let table_info = TableCreationInfo {
                    schema_name: schema_name.to_owned(),
                    table_name: table_name.to_owned(),
                    columns,
                };
                Ok(Plan::CreateTable(table_info))
            },
        }
    }

    /// The plan for a `DROP`; the first name that addresses nothing gives
    /// `Err` and sends the error.
    fn handle_drop(
        &self,
        object_type: &ObjectType,
        names: &Vec<ObjectName>,
        cascade: bool,
        storage: &CatalogManager,
        sender: &mut Sender,
    ) -> (planned: Result<Plan, ()>)
        ensures
            planning_outcome(
                drop_plan(storage@, *object_type, names.deep_view(), cascade),
                planned,
                old(sender)@,
                final(sender)@,
            ),
    {
        match object_type {
            ObjectType::Table => {
                let mut table_names: Vec<TableId> = Vec::new();
                assert(names.deep_view().take(0) =~= Seq::empty());
                assert(table_names.deep_view() =~= Seq::empty());
                let mut i: usize = 0;
                while i < names.len()
                    invariant
                        *object_type == ObjectType::Table,
                        i <= names@.len(),
                        sender@ == old(sender)@,
                        checked_tables(storage@, names.deep_view().take(i as int)) == Ok::<
                            Seq<(Seq<char>, Seq<char>)>,
                            QueryErrorModel,
                        >(table_names.deep_view()),
                    decreases names@.len() - i,
                {
                    let ghost done = names.deep_view().take(i as int);
                    let ghost next = names.deep_view().take(i + 1);
                    let ghost before = table_names.deep_view();
                    proof {
                        assert(next.drop_last() =~= done);
                        assert(next.last() == names@[i as int]@);
                        lemma_checked_tables_prefix_error(storage@, names.deep_view(), i + 1);
                    }
                    let table_id = match TableId::try_from(&names[i]) {
                        Ok(table_id) => table_id,
                        Err(error) => {
                            sender.send(Err(QueryError::SyntaxError(error.0)));
                            return Err(());
                        },
                    };
                    let schema_name = table_id.schema_name();
                    let table_name = table_id.name();
                    match storage.table_exists(schema_name, table_name) {
                        None => {
                            sender.send(
                                Err(QueryError::SchemaDoesNotExist(schema_name.to_owned())),
                            );
                            return Err(());
                        },
                        Some((_, None)) => {
                            sender.send(
                                Err(
                                    QueryError::TableDoesNotExist(
                                        concat3(schema_name, ".", table_name),
                                    ),
                                ),
                            );
                            return Err(());
                        },
                        Some((_, Some(_))) => {
                            table_names.push(table_id);
                            assert(table_names.deep_view() =~= before.push(table_id@));
                        },
                    }
                    i += 1;
                }
                assert(names.deep_view().take(i as int) =~= names.deep_view());
                Ok(Plan::DropTables(table_names))
            },
            ObjectType::Schema => {
                let mut schema_names: Vec<(SchemaId, bool)> = Vec::new();
                assert(names.deep_view().take(0) =~= Seq::empty());
                assert(schema_names.deep_view() =~= Seq::empty());
                let mut i: usize = 0;
                while i < names.len()
                    invariant
                        *object_type == ObjectType::Schema,
                        i <= names@.len(),
                        sender@ == old(sender)@,
                        checked_schemas(storage@, names.deep_view().take(i as int), cascade)
                            == Ok::<Seq<(Seq<char>, bool)>, QueryErrorModel>(
                            schema_names.deep_view(),
                        ),
                    decreases names@.len() - i,
                {
                    let ghost done = names.deep_view().take(i as int);
                    let ghost next = names.deep_view().take(i + 1);
                    let ghost before = schema_names.deep_view();
                    proof {
                        assert(next.drop_last() =~= done);
                        assert(next.last() == names@[i as int]@);
                        lemma_checked_schemas_prefix_error(
                            storage@,
                            names.deep_view(),
                            cascade,
                            i + 1,
                        );
                    }
                    let schema_id = match SchemaId::try_from(&names[i]) {
                        Ok(schema_id) => schema_id,
                        Err(error) => {
                            sender.send(Err(QueryError::SyntaxError(error.0)));
                            return Err(());
                        },
                    };
                    match storage.schema_exists(schema_id.name()) {
                        None => {
                            sender.send(
                                Err(QueryError::SchemaDoesNotExist(schema_id.name().to_owned())),
                            );
                            return Err(());
                        },
                        Some(_) => {
                            schema_names.push((schema_id, cascade));
                            assert(schema_names.deep_view() =~= before.push((schema_id@, cascade)));
                        },
                    }
                    i += 1;
                }
                assert(names.deep_view().take(i as int) =~= names.deep_view());
                Ok(Plan::DropSchemas(schema_names))
            },
        }
    }
}

/// An error among the first `n` columns is the error of all of them.
pub proof fn lemma_resolved_columns_prefix_error(columns: Seq<ColumnDefModel>, n: int)
    requires
        0 <= n <= columns.len(),
    ensures
        resolved_columns(columns.take(n)) is Err ==> resolved_columns(columns)
            == resolved_columns(columns.take(n)),
    decreases columns.len() - n,
{
    if n < columns.len() {
        assert(columns.take(n + 1).drop_last() =~= columns.take(n));
        lemma_resolved_columns_prefix_error(columns, n + 1);
    } else {
        assert(columns.take(n) =~= columns);
    }
}

/// An error among the first `n` names is the error of all of them.
pub proof fn lemma_checked_tables_prefix_error(
    catalog: CatalogModel,
    names: Seq<Seq<Seq<char>>>,
    n: int,
)
    requires
        0 <= n <= names.len(),
    ensures
        checked_tables(catalog, names.take(n)) is Err ==> checked_tables(catalog, names)
            == checked_tables(catalog, names.take(n)),
    decreases names.len() - n,
{
    if n < names.len() {
        assert(names.take(n + 1).drop_last() =~= names.take(n));
        lemma_checked_tables_prefix_error(catalog, names, n + 1);
    } else {
        assert(names.take(n) =~= names);
    }
}

/// An error among the first `n` names is the error of all of them.
pub proof fn lemma_checked_schemas_prefix_error(
    catalog: CatalogModel,
    names: Seq<Seq<Seq<char>>>,
    cascade: bool,
    n: int,
)
    requires
        0 <= n <= names.len(),
    ensures
        checked_schemas(catalog, names.take(n), cascade) is Err ==> checked_schemas(
            catalog,
            names,
            cascade,
        ) == checked_schemas(catalog, names.take(n), cascade),
    decreases names.len() - n,
{
    if n < names.len() {
        assert(names.take(n + 1).drop_last() =~= names.take(n));
        lemma_checked_schemas_prefix_error(catalog, names, cascade, n + 1);
    } else {
        assert(names.take(n) =~= names);
    }
}

} // verus!
