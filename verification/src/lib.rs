//! A PostgreSQL-compatible SQL query engine: planning, command execution and
//! the prepared-statement and portal life cycle of the extended protocol.

use crate::ast::{Statement, StatementModel};
use crate::catalog_manager::{CatalogManager, CatalogModel};
use crate::ddl::create_schema::{create_schema_message, CreateSchemaCommand};
use crate::ddl::create_table::{create_table_message, CreateTableCommand};
use crate::ddl::drop_schema::{drop_schema_message, DropSchemaCommand};
use crate::ddl::drop_table::{drop_table_message, DropTableCommand};
use crate::dml::delete::{delete_catalog, delete_message, DeleteCommand};
use crate::dml::insert::{insert_catalog, insert_message, InsertCommand};
use crate::dml::select::{description_for, select_message, SelectCommand};
use crate::dml::update::{update_catalog, update_message, UpdateCommand};
use crate::query::bind::{bound_statement, ParamBinder};
use crate::query::plan::{Plan, PlanModel};
use crate::query::process::{plan_for, QueryProcessor};
use crate::results::{clone_description, clone_param_types, Description, DescriptionModel,
    Message, QueryError, QueryErrorModel, QueryEvent, QueryEventModel, Sender, SystemResult};
use crate::session::statement::{PortalModel, PreparedStatement, PreparedStatementModel};
use crate::session::{Session, SessionModel};
use crate::sql_text::sql_text;
use crate::sql_types::{decoded, PostgreSqlFormat, PostgreSqlType, PostgreSqlValue,
    PostgreSqlValueModel, SqlType};
use crate::text::{decimal, str_eq, usize_to_string};
use crate::theorems::{lemma_bind_keeps_wf, lemma_describe_keeps_wf, lemma_execute_keeps_wf,
    lemma_execute_portal_keeps_wf, lemma_parse_keeps_wf};
use vstd::prelude::*;

pub mod ast;
pub mod catalog_manager;
pub mod ddl;
pub mod dml;
pub mod query;
pub mod results;
pub mod session;
pub mod sql_text;
pub mod sql_types;
pub mod text;
pub mod theorems;

verus! {

/// A column of a table: its display name and its type.
#[derive(Debug, PartialEq, Eq)]
pub struct ColumnDefinition {
    name: String,
    sql_type: SqlType,
}

/// The mathematical value of a [`ColumnDefinition`].
pub struct ColumnDefinitionModel {
    pub name: Seq<char>,
    pub sql_type: SqlType,
}

impl View for ColumnDefinition {
    type V = ColumnDefinitionModel;

    closed spec fn view(&self) -> ColumnDefinitionModel {
        ColumnDefinitionModel { name: self.name@, sql_type: self.sql_type }
    }
}

impl DeepView for ColumnDefinition {
    type V = ColumnDefinitionModel;

    open spec fn deep_view(&self) -> ColumnDefinitionModel {
        self@
    }
}

impl Clone for ColumnDefinition {
    fn clone(&self) -> (copy: Self)
        ensures
            copy@ == self@,
    {
        ColumnDefinition { name: self.name.clone(), sql_type: self.sql_type }
    }
}

impl ColumnDefinition {
    pub fn new(name: &str, sql_type: SqlType) -> (column: Self)
        ensures
            column@ == (ColumnDefinitionModel { name: name@, sql_type }),
    {
        Self { name: name.to_owned(), sql_type }
    }

    pub fn sql_type(&self) -> (sql_type: SqlType)
        ensures
            sql_type == self@.sql_type,
    {
        self.sql_type
    }

    pub fn has_name(&self, other_name: &str) -> (same: bool)
        ensures
            same == (self@.name == other_name@),
    {
        str_eq(self.name.as_str(), other_name)
    }

    pub fn name(&self) -> (name: String)
        ensures
            name@ == self@.name,
    {
        self.name.clone()
    }
}

/// The lexical policy under which prepared statements are parsed: `$` may
/// start and continue an identifier, so that a placeholder is one token.
#[derive(Debug)]
pub struct PreparedStatementDialect {}

/// Whether `ch` is one of the letters `a` to `z` and `A` to `Z`.
pub open spec fn is_ascii_letter(ch: char) -> bool {
    ('a' <= ch && ch <= 'z') || ('A' <= ch && ch <= 'Z')
}

/// Whether `ch` is one of the digits `0` to `9`.
pub open spec fn is_ascii_digit(ch: char) -> bool {
    '0' <= ch && ch <= '9'
}

impl PreparedStatementDialect {
    pub fn is_identifier_start(&self, ch: char) -> (accepted: bool)
        ensures
            accepted == (is_ascii_letter(ch) || ch == '$' || ch == '_'),
    {
        (ch >= 'a' && ch <= 'z') || (ch >= 'A' && ch <= 'Z') || ch == '$' || ch == '_'
    }

    pub fn is_identifier_part(&self, ch: char) -> (accepted: bool)
        ensures
            accepted == (is_ascii_letter(ch) || is_ascii_digit(ch) || ch == '$' || ch == '_'),
    {
        (ch >= 'a' && ch <= 'z') || (ch >= 'A' && ch <= 'Z') || (ch >= '0' && ch <= '9') || ch
            == '$' || ch == '_'
    }
}

/// The diagnostic for `given` format codes where `wanted` fields need one.
pub open spec fn format_count_message(given: nat, wanted: nat) -> Seq<char> {
    "expected "@ + decimal(given) + " field format specifiers, but got "@ + decimal(wanted)
}

/// The formats of `count` fields for which a client gave `formats`: none
/// given means text for all, one given holds for all, and otherwise each
/// field needs its own.
pub open spec fn padded_formats(formats: Seq<PostgreSqlFormat>, count: nat) -> Result<
    Seq<PostgreSqlFormat>,
    Seq<char>,
> {
    if formats.len() == 0 {
        Ok(Seq::new(count, |i: int| PostgreSqlFormat::Text))
    } else if formats.len() == 1 {
        Ok(Seq::new(count, |i: int| formats[0]))
    } else if formats.len() == count {
        Ok(formats)
    } else {
        Err(format_count_message(formats.len(), count))
    }
}

/// Pads the format codes of a message to one format per field.
pub fn pad_formats(formats: &[PostgreSqlFormat], param_len: usize) -> (padded: Result<
    Vec<PostgreSqlFormat>,
    String,
>)
    ensures
        padded is Ok <==> formats@.len() == 0 || formats@.len() == 1 || formats@.len()
            == param_len,
        padded matches Ok(all) ==> all@.len() == param_len && Ok::<
            Seq<PostgreSqlFormat>,
            Seq<char>,
        >(all@) == padded_formats(formats@, param_len as nat),
        padded matches Err(message) ==> message@ == format_count_message(
            formats@.len(),
            param_len as nat,
        ),
{
    let given = formats.len();
    if given == 0 || given == 1 {
        let fill = if given == 0 {
            PostgreSqlFormat::Text
        } else {
            formats[0]
        };
        let mut all: Vec<PostgreSqlFormat> = Vec::new();
        while all.len() < param_len
            invariant
                all@.len() <= param_len,
                forall|i: int| 0 <= i < all@.len() ==> all@[i] == fill,
            decreases param_len - all@.len(),
        {
            all.push(fill);
        }
        assert(all@ =~= padded_formats(formats@, param_len as nat)->Ok_0);
        Ok(all)
    } else if given == param_len {
        let mut all: Vec<PostgreSqlFormat> = Vec::new();
        let mut i: usize = 0;
        while i < given
            invariant
                i <= given,
                given == formats@.len(),
                all@ == formats@.subrange(0, i as int),
            decreases given - i,
        {
            all.push(formats[i]);
            i += 1;
            assert(all@ =~= formats@.subrange(0, i as int));
        }
        assert(all@ =~= formats@);
        Ok(all)
    } else {
        let mut message = String::from_str("expected ");
        message.append(usize_to_string(given).as_str());
        message.append(" field format specifiers, but got ");
        message.append(usize_to_string(param_len).as_str());
        Err(message)
    }
}

/// The catalog and the messages that a command leaves behind.
pub struct Effect {
    pub catalog: CatalogModel,
    pub messages: Seq<Message>,
}

/// What dropping the schemas in order does to a catalog: each drop sees the
/// catalog that the drops before it left.
pub open spec fn drop_schemas_effect(
    catalog: CatalogModel,
    schemas: Seq<(Seq<char>, bool)>,
) -> Effect
    decreases schemas.len(),
{
    if schemas.len() == 0 {
        Effect { catalog, messages: Seq::empty() }
    } else {
        let before = drop_schemas_effect(catalog, schemas.drop_last());
        Effect {
            catalog: before.catalog.drop_schema(schemas.last().0),
            messages: before.messages.push(drop_schema_message(before.catalog, schemas.last().0)),
        }
    }
}

/// What dropping the tables in order does to a catalog.
pub open spec fn drop_tables_effect(
    catalog: CatalogModel,
    tables: Seq<(Seq<char>, Seq<char>)>,
) -> Effect
    decreases tables.len(),
{
    if tables.len() == 0 {
        Effect { catalog, messages: Seq::empty() }
    } else {
        let before = drop_tables_effect(catalog, tables.drop_last());
        Effect {
            catalog: before.catalog.drop_table(tables.last().0, tables.last().1),
            messages: before.messages.push(
                drop_table_message(before.catalog, tables.last().0, tables.last().1),
            ),
        }
    }
}

/// What a statement that the processor left as it is does to a catalog.
pub open spec fn unprocessed_effect(
    catalog: CatalogModel,
    raw_sql_query: Seq<char>,
    statement: StatementModel,
) -> Effect {
    match statement {
        StatementModel::StartTransaction(_) => Effect {
            catalog,
            messages: seq![Ok(QueryEventModel::TransactionStarted)],
        },
        StatementModel::SetVariable(_) => Effect {
            catalog,
            messages: seq![Ok(QueryEventModel::VariableSet)],
        },
        StatementModel::Query(query) => Effect {
            catalog,
            messages: seq![select_message(catalog, raw_sql_query, query)],
        },
        StatementModel::Update { table_name, assignments, .. } => Effect {
            catalog: update_catalog(catalog, raw_sql_query, table_name, assignments),
            messages: seq![update_message(catalog, raw_sql_query, table_name, assignments)],
        },
        StatementModel::Delete { table_name, .. } => Effect {
            catalog: delete_catalog(catalog, table_name),
            messages: seq![delete_message(catalog, table_name)],
        },
        _ => Effect {
            catalog,
            messages: seq![Err(QueryErrorModel::FeatureNotSupported(raw_sql_query))],
        },
    }
}

/// What executing a plan does to a catalog.
pub open spec fn plan_effect(
    catalog: CatalogModel,
    raw_sql_query: Seq<char>,
    plan: PlanModel,
) -> Effect {
    match plan {
        PlanModel::CreateSchema { schema_name } => Effect {
            catalog: catalog.create_schema(schema_name),
            messages: seq![create_schema_message(catalog, schema_name)],
        },
        PlanModel::CreateTable { schema_name, table_name, columns } => Effect {
            catalog: catalog.create_table(schema_name, table_name, columns),
            messages: seq![create_table_message(catalog, schema_name, table_name)],
        },
        PlanModel::DropSchemas(schemas) => drop_schemas_effect(catalog, schemas),
        PlanModel::DropTables(tables) => drop_tables_effect(catalog, tables),
        PlanModel::Insert { table_id, column_indices, input } => Effect {
            catalog: insert_catalog(catalog, raw_sql_query, table_id, column_indices, input),
            messages: seq![
                insert_message(catalog, raw_sql_query, table_id, column_indices, input),
            ],
        },
        PlanModel::NotProcessed(statement) => unprocessed_effect(
            catalog,
            raw_sql_query,
            statement,
        ),
    }
}

/// What one statement does to a catalog: it is planned and, unless the
/// processor rejects it, executed.
pub open spec fn statement_effect(
    catalog: CatalogModel,
    raw_sql_query: Seq<char>,
    statement: StatementModel,
) -> Effect {
    match plan_for(catalog, statement) {
        Err(error) => Effect { catalog, messages: seq![Err(error)] },
        Ok(plan) => plan_effect(catalog, raw_sql_query, plan),
    }
}

/// What the parser made of a text, as a mathematical value: the statement,
/// or `None` where the text is no statement.
pub open spec fn parsed_model(parsed: Option<Statement>) -> Option<StatementModel> {
    match parsed {
        Some(statement) => Some(statement@),
        None => None,
    }
}

/// The text `text` as `{:?}` writes it: in double quotes, with escapes.
pub uninterp spec fn debug_text(text: Seq<char>) -> Seq<char>;

/// The diagnostic for a text that is no statement.
pub open spec fn parse_error_message(raw_sql_query: Seq<char>) -> Seq<char> {
    debug_text(raw_sql_query) + " can't be parsed"@
}

/// The diagnostic for a `Bind` with the wrong number of parameters.
pub open spec fn bind_count_message(actual: nat, name: Seq<char>, expected: nat) -> Seq<char> {
    "Bind message supplies "@ + decimal(actual) + " parameters, but prepared statement \""@
        + name + "\" requires "@ + decimal(expected)
}

/// The bytes of each parameter of a `Bind`; `None` for a null.
pub open spec fn raw_params_model(raw_params: Seq<Option<Vec<u8>>>) -> Seq<Option<Seq<u8>>> {
    Seq::new(
        raw_params.len(),
        |i: int|
            match raw_params[i] {
                Some(bytes) => Some(bytes@),
                None => None,
            },
    )
}

/// The values of the first `count` parameters, each decoded by its type and
/// format, or the diagnostic of the first that cannot be decoded. A null
/// needs no decoding.
pub open spec fn decoded_params(
    raw_params: Seq<Option<Seq<u8>>>,
    param_types: Seq<PostgreSqlType>,
    formats: Seq<PostgreSqlFormat>,
    count: nat,
) -> Result<Seq<PostgreSqlValueModel>, Seq<char>>
    recommends
        count <= raw_params.len(),
        count <= param_types.len(),
        count <= formats.len(),
    decreases count,
{
    if count == 0 {
        Ok(Seq::empty())
    } else {
        let last = (count - 1) as nat;
        match decoded_params(raw_params, param_types, formats, last) {
            Err(message) => Err(message),
            Ok(before) => match raw_params[last as int] {
                None => Ok(before.push(PostgreSqlValueModel::Null)),
                Some(bytes) => match decoded(
                    param_types[last as int],
                    formats[last as int],
                    bytes,
                ) {
                    Err(message) => Err(message),
                    Ok(value) => Ok(before.push(value)),
                },
            },
        }
    }
}

/// The portal that a `Bind` creates from a prepared statement, or the error
/// that ends it. The number of parameters is checked first, then the
/// parameter formats, then each parameter is decoded, then the values are
/// bound to the statement, then the result formats are checked.
pub open spec fn bound_portal(
    statement_name: Seq<char>,
    prepared: PreparedStatementModel,
    param_formats: Seq<PostgreSqlFormat>,
    raw_params: Seq<Option<Seq<u8>>>,
    result_formats: Seq<PostgreSqlFormat>,
) -> Result<PortalModel, QueryErrorModel> {
    if prepared.param_types.len() != raw_params.len() {
        Err(
            QueryErrorModel::ProtocolViolation(
                bind_count_message(raw_params.len(), statement_name, prepared.param_types.len()),
            ),
        )
    } else {
        match padded_formats(param_formats, raw_params.len()) {
            Err(message) => Err(QueryErrorModel::ProtocolViolation(message)),
            Ok(formats) => match decoded_params(
                raw_params,
                prepared.param_types,
                formats,
                raw_params.len(),
            ) {
                Err(message) => Err(QueryErrorModel::InvalidParameterValue(message)),
                Ok(params) => match bound_statement(prepared.stmt, params) {
                    Err(error) => Err(error),
                    Ok(stmt) => match padded_formats(result_formats, prepared.description.len()) {
                        Err(message) => Err(QueryErrorModel::ProtocolViolation(message)),
                        Ok(formats) => Ok(
                            PortalModel { statement_name, stmt, result_formats: formats },
                        ),
                    },
                },
            },
        }
    }
}

/// The mathematical value of a [`QueryExecutor`]: the catalog, the session,
/// and the messages that were sent and not flushed, oldest first.
pub struct ExecutorModel {
    pub storage: CatalogModel,
    pub session: SessionModel,
    pub sent: Seq<Message>,
}

impl ExecutorModel {
    /// The catalog is well formed, and every portal of the session names a
    /// prepared statement of the session.
    pub open spec fn wf(self) -> bool {
        self.storage.wf() && self.session.consistent()
    }

    /// The state with `messages` sent after those that wait.
    pub open spec fn send(self, messages: Seq<Message>) -> ExecutorModel {
        ExecutorModel { storage: self.storage, session: self.session, sent: self.sent + messages }
    }

    /// The state after one statement was planned and executed.
    pub open spec fn process_statement(
        self,
        raw_sql_query: Seq<char>,
        statement: StatementModel,
    ) -> ExecutorModel {
        let effect = statement_effect(self.storage, raw_sql_query, statement);
        ExecutorModel {
            storage: effect.catalog,
            session: self.session,
            sent: self.sent + effect.messages,
        }
    }

    /// The state after the body of a simple query: a text that is no
    /// statement sends `SyntaxError` and changes nothing else; a statement
    /// is processed.
    pub open spec fn execute_body(
        self,
        raw_sql_query: Seq<char>,
        parsed: Option<StatementModel>,
    ) -> ExecutorModel {
        match parsed {
            None => self.send(
                seq![Err(QueryErrorModel::SyntaxError(parse_error_message(raw_sql_query)))],
            ),
            Some(statement) => self.process_statement(raw_sql_query, statement),
        }
    }

    /// The state after a simple query: whatever its body sent, successes or
    /// an error, `QueryComplete` follows and closes the request.
    pub open spec fn execute(
        self,
        raw_sql_query: Seq<char>,
        parsed: Option<StatementModel>,
    ) -> ExecutorModel {
        self.execute_body(raw_sql_query, parsed).send(seq![Ok(QueryEventModel::QueryComplete)])
    }

    /// The row description that a `Parse` stores with a statement: that of
    /// a query, and none for any other statement. `Err` where the query
    /// cannot be described.
    pub open spec fn description_to_store(
        self,
        raw_sql_query: Seq<char>,
        statement: StatementModel,
    ) -> Result<DescriptionModel, QueryErrorModel> {
        match statement {
            StatementModel::Query(query) => description_for(self.storage, raw_sql_query, query),
            _ => Ok(Seq::empty()),
        }
    }

    /// Whether a `Parse` stores the statement and sends `ParseComplete`.
    pub open spec fn parse_succeeds(
        self,
        raw_sql_query: Seq<char>,
        parsed: Option<StatementModel>,
    ) -> bool {
        parsed matches Some(statement) && self.description_to_store(raw_sql_query, statement)
            is Ok
    }

    /// The state after a `Parse`.
    pub open spec fn parse_prepared_statement(
        self,
        statement_name: Seq<char>,
        raw_sql_query: Seq<char>,
        parsed: Option<StatementModel>,
        param_types: Seq<PostgreSqlType>,
    ) -> ExecutorModel {
        match parsed {
            None => self.send(
                seq![Err(QueryErrorModel::SyntaxError(parse_error_message(raw_sql_query)))],
            ),
            Some(statement) => match self.description_to_store(raw_sql_query, statement) {
                Err(error) => self.send(seq![Err(error)]),
                Ok(description) => ExecutorModel {
                    storage: self.storage,
                    session: SessionModel {
                        prepared_statements: self.session.prepared_statements.insert(
                            statement_name,
                            PreparedStatementModel { stmt: statement, param_types, description },
                        ),
                        portals: self.session.portals,
                    },
                    sent: self.sent.push(Ok(QueryEventModel::ParseComplete)),
                },
            },
        }
    }

    /// The message that describing the prepared statement `name` sends.
    pub open spec fn describe_message(self, name: Seq<char>) -> Message {
        if self.session.prepared_statements.contains_key(name) {
            Ok(
                QueryEventModel::PreparedStatementDescribed(
                    self.session.prepared_statements[name].param_types,
                    self.session.prepared_statements[name].description,
                ),
            )
        } else {
            Err(QueryErrorModel::PreparedStatementDoesNotExist(name))
        }
    }

    /// The state after a `Describe`.
    pub open spec fn describe_prepared_statement(self, name: Seq<char>) -> ExecutorModel {
        self.send(seq![self.describe_message(name)])
    }

    /// The portal that a `Bind` creates, or the error that ends it.
    pub open spec fn portal_to_bind(
        self,
        statement_name: Seq<char>,
        param_formats: Seq<PostgreSqlFormat>,
        raw_params: Seq<Option<Seq<u8>>>,
        result_formats: Seq<PostgreSqlFormat>,
    ) -> Result<PortalModel, QueryErrorModel> {
        if self.session.prepared_statements.contains_key(statement_name) {
            bound_portal(
                statement_name,
                self.session.prepared_statements[statement_name],
                param_formats,
                raw_params,
                result_formats,
            )
        } else {
            Err(QueryErrorModel::PreparedStatementDoesNotExist(statement_name))
        }
    }

    /// The state after a `Bind`: the portal is stored and `BindComplete`
    /// sent, or the error is sent and nothing else changes.
    pub open spec fn bind_prepared_statement_to_portal(
        self,
        portal_name: Seq<char>,
        statement_name: Seq<char>,
        param_formats: Seq<PostgreSqlFormat>,
        raw_params: Seq<Option<Seq<u8>>>,
        result_formats: Seq<PostgreSqlFormat>,
    ) -> ExecutorModel {
        match self.portal_to_bind(statement_name, param_formats, raw_params, result_formats) {
            Err(error) => self.send(seq![Err(error)]),
            Ok(portal) => ExecutorModel {
                storage: self.storage,
                session: SessionModel {
                    prepared_statements: self.session.prepared_statements,
                    portals: self.session.portals.insert(portal_name, portal),
                },
                sent: self.sent.push(Ok(QueryEventModel::BindComplete)),
            },
        }
    }

    /// The state after an `Execute`: the statement of the portal is
    /// processed under its own SQL text; a missing portal sends
    /// `PortalDoesNotExist`.
    pub open spec fn execute_portal(self, portal_name: Seq<char>) -> ExecutorModel {
        if self.session.portals.contains_key(portal_name) {
            let statement = self.session.portals[portal_name].stmt;
            self.process_statement(sql_text(statement), statement)
        } else {
            self.send(seq![Err(QueryErrorModel::PortalDoesNotExist(portal_name))])
        }
    }
}

/// The text as `{:?}` writes it. The body formats the text with `format!`
/// and `{:?}`, that is with the `Debug` implementation of `str` in the
/// standard library; the contract only names what that gives.
#[verifier::external_body]
fn debug_string(text: &str) -> (quoted: String)
    ensures
        quoted@ == debug_text(text@),
{
    format!("{:?}", text)
}

/// The engine of one session: it plans and executes statements against its
/// catalog, keeps the session's prepared statements and portals, and leaves
/// every message for the client with its sender.
pub struct QueryExecutor {
    storage: CatalogManager,
    sender: Sender,
    session: Session,
    processor: QueryProcessor,
    param_binder: ParamBinder,
}

impl View for QueryExecutor {
    type V = ExecutorModel;

    closed spec fn view(&self) -> ExecutorModel {
        ExecutorModel { storage: self.storage@, session: self.session@, sent: self.sender@ }
    }
}

impl QueryExecutor {
    pub fn new(storage: CatalogManager, sender: Sender) -> (executor: Self)
        ensures
            executor@.storage == storage@,
            executor@.sent == sender@,
            executor@.session.prepared_statements == Map::<
                Seq<char>,
                PreparedStatementModel,
            >::empty(),
            executor@.session.portals == Map::<Seq<char>, PortalModel>::empty(),
            storage@.wf() ==> executor@.wf(),
    {
        Self {
            storage,
            sender,
            session: Session::new(),
            processor: QueryProcessor::new(),
            param_binder: ParamBinder::new(),
        }
    }

    /// The catalog.
    pub fn storage(&self) -> (storage: &CatalogManager)
        ensures
            storage@ == self@.storage,
    {
        &self.storage
    }

    /// The session.
    pub fn session(&self) -> (session: &Session)
        ensures
            session@ == self@.session,
    {
        &self.session
    }

    /// Runs a simple query: `parsed` is the statement that
    /// `raw_sql_query` holds, or `None` where the text is no statement. The
    /// request ends with `QueryComplete` in either case.
    pub fn execute(&mut self, raw_sql_query: &str, parsed: Option<Statement>) -> (done:
        SystemResult<()>)
        ensures
            done is Ok,
            final(self)@ == old(self)@.execute(raw_sql_query@, parsed_model(parsed)),
            old(self)@.wf() ==> final(self)@.wf(),
    {
        proof {
            if self@.wf() {
                lemma_execute_keeps_wf(self@, raw_sql_query@, parsed_model(parsed));
            }
        }
        match parsed {
            Some(statement) => {
                self.process_statement(raw_sql_query, statement)?;
            },
            None => {
                let mut message = debug_string(raw_sql_query);
                message.append(" can't be parsed");
                self.sender.send(Err(QueryError::SyntaxError(message)));
                assert(self@.sent =~= old(self)@.sent + seq![
                    Err(QueryErrorModel::SyntaxError(parse_error_message(raw_sql_query@))),
                ]);
            },
        }
        let ghost processed = self@;
        self.sender.send(Ok(QueryEvent::QueryComplete));
        assert(self@.sent =~= processed.sent + seq![Ok(QueryEventModel::QueryComplete)]);
        Ok(())
    }

    /// Plans and executes one statement.
    #[verifier::loop_isolation(false)]
    fn process_statement(&mut self, raw_sql_query: &str, statement: Statement) -> (done:
        SystemResult<()>)
        ensures
            done is Ok,
            final(self)@ == old(self)@.process_statement(raw_sql_query@, statement@),
    {
        let ghost before = self@;
        match self.processor.process(statement, &self.storage, &mut self.sender) {
            Ok(Plan::CreateSchema(creation_info)) => {
                CreateSchemaCommand::new(creation_info).execute(
                    &mut self.storage,
                    &mut self.sender,
                )?;
                assert(self@.sent =~= before.sent + seq![
                    create_schema_message(before.storage, creation_info.schema_name@),
                ]);
            },
            Ok(Plan::CreateTable(creation_info)) => {
                CreateTableCommand::new(creation_info).execute(
                    &mut self.storage,
                    &mut self.sender,
                )?;
                assert(self@.sent =~= before.sent + seq![
                    create_table_message(
                        before.storage,
                        creation_info.schema_name@,
                        creation_info.table_name@,
                    ),
                ]);
            },
            Ok(Plan::DropSchemas(schemas)) => {
                let mut i: usize = 0;
                assert(schemas.deep_view().take(0) =~= Seq::empty());
                assert(self@.sent =~= before.sent + Seq::<Message>::empty());
                while i < schemas.len()
                    invariant
                        i <= schemas@.len(),
                        self@.session == before.session,
                        self@.storage == drop_schemas_effect(
                            before.storage,
                            schemas.deep_view().take(i as int),
                        ).catalog,
                        self@.sent == before.sent + drop_schemas_effect(
                            before.storage,
                            schemas.deep_view().take(i as int),
                        ).messages,
                    decreases schemas@.len() - i,
                {
                    proof {
                        assert(schemas.deep_view().take(i + 1).drop_last()
                            =~= schemas.deep_view().take(i as int));
                        assert(schemas.deep_view().take(i + 1).last() == (
                            schemas@[i as int].0@,
                            schemas@[i as int].1,
                        ));
                    }
                    DropSchemaCommand::new(schemas[i].0.clone(), schemas[i].1).execute(
                        &mut self.storage,
                        &mut self.sender,
                    )?;
                    i += 1;
                    assert(self@.sent =~= before.sent + drop_schemas_effect(
                        before.storage,
                        schemas.deep_view().take(i as int),
                    ).messages);
                }
                assert(schemas.deep_view().take(i as int) =~= schemas.deep_view());
            },
            Ok(Plan::DropTables(tables)) => {
                let mut i: usize = 0;
                assert(tables.deep_view().take(0) =~= Seq::empty());
                assert(self@.sent =~= before.sent + Seq::<Message>::empty());
                while i < tables.len()
                    invariant
                        i <= tables@.len(),
                        self@.session == before.session,
                        self@.storage == drop_tables_effect(
                            before.storage,
                            tables.deep_view().take(i as int),
                        ).catalog,
                        self@.sent == before.sent + drop_tables_effect(
                            before.storage,
                            tables.deep_view().take(i as int),
                        ).messages,
                    decreases tables@.len() - i,
                {
                    proof {
                        assert(tables.deep_view().take(i + 1).drop_last()
                            =~= tables.deep_view().take(i as int));
                        assert(tables.deep_view().take(i + 1).last() == tables@[i as int]@);
                    }
                    DropTableCommand::new(tables[i].clone()).execute(
                        &mut self.storage,
                        &mut self.sender,
                    )?;
                    i += 1;
                    assert(self@.sent =~= before.sent + drop_tables_effect(
                        before.storage,
                        tables.deep_view().take(i as int),
                    ).messages);
                }
                assert(tables.deep_view().take(i as int) =~= tables.deep_view());
            },
            Ok(Plan::Insert(table_insert)) => {
                let ghost message = insert_message(
                    before.storage,
                    raw_sql_query@,
                    table_insert.table_id@,
                    table_insert.column_indices.deep_view(),
                    table_insert.input@,
                );
                InsertCommand::new(raw_sql_query, table_insert).execute(
                    &mut self.storage,
                    &mut self.sender,
                )?;
                assert(self@.sent =~= before.sent + seq![message]);
            },
            Ok(Plan::NotProcessed(statement)) => {
                let ghost effect = unprocessed_effect(
                    before.storage,
                    raw_sql_query@,
                    statement@,
                );
                match statement {
                    Statement::StartTransaction(_) => {
                        self.sender.send(Ok(QueryEvent::TransactionStarted));
                    },
                    Statement::SetVariable(_) => {
                        self.sender.send(Ok(QueryEvent::VariableSet));
                    },
                    Statement::Query(query) => {
                        SelectCommand::new(raw_sql_query, &query).execute(
                            &self.storage,
                            &mut self.sender,
                        )?;
                    },
                    Statement::Update { table_name, assignments, .. } => {
                        UpdateCommand::new(raw_sql_query, table_name, assignments).execute(
                            &mut self.storage,
                            &mut self.sender,
                        )?;
                    },
                    Statement::Delete { table_name, .. } => {
                        DeleteCommand::new(table_name).execute(
                            &mut self.storage,
                            &mut self.sender,
                        )?;
                    },
                    _ => {
                        self.sender.send(
                            Err(QueryError::FeatureNotSupported(raw_sql_query.to_owned())),
                        );
                    },
                }
                assert(self@.sent =~= before.sent + effect.messages);
            },
            Err(()) => {
                assert(self@.sent =~= before.sent + seq![
                    Err(plan_for(before.storage, statement@)->Err_0),
                ]);
            },
        };
        Ok(())
    }

    /// Handles a `Parse`: `parsed` is the statement that `raw_sql_query`
    /// holds under the dialect of prepared statements, or `None` where the
    /// text is no statement. The statement is stored under its name with
    /// the parameter types and with its row description, and
    /// `ParseComplete` is sent. A query that cannot be described sends its
    /// error and returns the failed check; nothing is stored then.
    pub fn parse_prepared_statement(
        &mut self,
        statement_name: &str,
        raw_sql_query: &str,
        parsed: Option<Statement>,
        param_types: &[PostgreSqlType],
    ) -> (done: SystemResult<()>)
        ensures
            final(self)@ == old(self)@.parse_prepared_statement(
                statement_name@,
                raw_sql_query@,
                parsed_model(parsed),
                param_types@,
            ),
            done is Err <==> (parsed matches Some(statement) && old(self)@.description_to_store(
                raw_sql_query@,
                statement@,
            ) is Err),
            done matches Err(failure) ==> failure@ == crate::dml::select::check_failure_text(
                old(self)@.description_to_store(raw_sql_query@, parsed->Some_0@)->Err_0,
            ),
            old(self)@.wf() ==> final(self)@.wf(),
    {
        proof {
            if self@.wf() {
                lemma_parse_keeps_wf(
                    self@,
                    statement_name@,
                    raw_sql_query@,
                    parsed_model(parsed),
                    param_types@,
                );
            }
        }
        let statement = match parsed {
            Some(statement) => statement,
            None => {
                let mut message = debug_string(raw_sql_query);
                message.append(" can't be parsed");
                self.sender.send(Err(QueryError::SyntaxError(message)));
                assert(self@.sent =~= old(self)@.sent + seq![
                    Err(QueryErrorModel::SyntaxError(parse_error_message(raw_sql_query@))),
                ]);
                return Ok(());
            },
        };
        let description = match &statement {
            Statement::Query(query) => {
                match SelectCommand::new(raw_sql_query, query).describe(
                    &self.storage,
                    &mut self.sender,
                ) {
                    Ok(description) => description,
                    Err(failure) => {
                        assert(self@.sent =~= old(self)@.sent + seq![
                            Err(
                                old(self)@.description_to_store(
                                    raw_sql_query@,
                                    statement@,
                                )->Err_0,
                            ),
                        ]);
                        return Err(failure);
                    },
                }
            },
            _ => {
                let none: Description = Vec::new();
                assert(none.deep_view() =~= Seq::empty());
                none
            },
        };
        let types = clone_param_types(param_types);
        let prepared_statement = PreparedStatement::new(statement, types, description);
        self.session.set_prepared_statement(statement_name.to_owned(), prepared_statement);
        self.sender.send(Ok(QueryEvent::ParseComplete));
        Ok(())
    }

    /// Handles a `Describe`: sends the parameter types and the row
    /// description of a prepared statement, or
    /// `PreparedStatementDoesNotExist`.
    pub fn describe_prepared_statement(&mut self, name: &str) -> (done: SystemResult<()>)
        ensures
            done is Ok,
            final(self)@ == old(self)@.describe_prepared_statement(name@),
            old(self)@.wf() ==> final(self)@.wf(),
    {
        proof {
            if self@.wf() {
                lemma_describe_keeps_wf(self@, name@);
            }
        }
        match self.session.get_prepared_statement(name) {
            Some(stmt) => {
                let types = clone_param_types(stmt.param_types());
                let description = clone_description(stmt.description());
                assert(description.deep_view() =~= stmt@.description);
                self.sender.send(Ok(QueryEvent::PreparedStatementDescribed(types, description)));
            },
            None => {
                self.sender.send(
                    Err(QueryError::PreparedStatementDoesNotExist(name.to_owned())),
                );
            },
        };
        assert(self@.sent =~= old(self)@.sent + seq![old(self)@.describe_message(name@)]);
        Ok(())
    }

    /// Handles a `Bind`: decodes the parameters by the types of the prepared
    /// statement and the given formats, binds them to a copy of its
    /// statement, stores the portal and sends `BindComplete`. On an error
    /// the error is sent and no portal is stored.
    #[verifier::loop_isolation(false)]
    pub fn bind_prepared_statement_to_portal(
        &mut self,
        portal_name: &str,
        statement_name: &str,
        param_formats: &[PostgreSqlFormat],
        raw_params: &[Option<Vec<u8>>],
        result_formats: &[PostgreSqlFormat],
    ) -> (done: SystemResult<()>)
        ensures
            done is Ok,
            final(self)@ == old(self)@.bind_prepared_statement_to_portal(
                portal_name@,
                statement_name@,
                param_formats@,
                raw_params_model(raw_params@),
                result_formats@,
            ),
            old(self)@.wf() ==> final(self)@.wf(),
    {
        proof {
            if self@.wf() {
                lemma_bind_keeps_wf(
                    self@,
                    portal_name@,
                    statement_name@,
                    param_formats@,
                    raw_params_model(raw_params@),
                    result_formats@,
                );
            }
        }
        let ghost before = self@;
        let ghost raw_model = raw_params_model(raw_params@);
        let prepared_statement = match self.session.get_prepared_statement(statement_name) {
            Some(prepared_statement) => prepared_statement,
            None => {
                self.sender.send(
                    Err(QueryError::PreparedStatementDoesNotExist(statement_name.to_owned())),
                );
                assert(self@.sent =~= before.sent + seq![
                    Err(QueryErrorModel::PreparedStatementDoesNotExist(statement_name@)),
                ]);
                return Ok(());
            },
        };
        let ghost prepared = prepared_statement@;
        let ghost outcome = bound_portal(
            statement_name@,
            prepared,
            param_formats@,
            raw_model,
            result_formats@,
        );
        let param_types = prepared_statement.param_types();
        if param_types.len() != raw_params.len() {
            let mut message = String::from_str("Bind message supplies ");
            message.append(usize_to_string(raw_params.len()).as_str());
            message.append(" parameters, but prepared statement \"");
            message.append(statement_name);
            message.append("\" requires ");
            message.append(usize_to_string(param_types.len()).as_str());
            self.sender.send(Err(QueryError::ProtocolViolation(message)));
            assert(self@.sent =~= before.sent + seq![Err(outcome->Err_0)]);
            return Ok(());
        }
        let param_formats = match pad_formats(param_formats, raw_params.len()) {
            Ok(param_formats) => param_formats,
            Err(msg) => {
                self.sender.send(Err(QueryError::ProtocolViolation(msg)));
                assert(self@.sent =~= before.sent + seq![Err(outcome->Err_0)]);
                return Ok(());
            },
        };
        let mut params: Vec<PostgreSqlValue> = Vec::new();
        assert(params.deep_view() =~= Seq::empty());
        let mut i: usize = 0;
        while i < raw_params.len()
            invariant
                i <= raw_params@.len(),
                self@ == before,
                decoded_params(raw_model, prepared.param_types, param_formats@, i as nat) == Ok::<
                    Seq<PostgreSqlValueModel>,
                    Seq<char>,
                >(params.deep_view()),
            decreases raw_params@.len() - i,
        {
            let ghost so_far = params.deep_view();
            proof {
                lemma_decoded_params_prefix_error(
                    raw_model,
                    prepared.param_types,
                    param_formats@,
                    (i + 1) as nat,
                    raw_params@.len(),
                );
            }
            match &raw_params[i] {
                None => {
                    params.push(PostgreSqlValue::Null);
                    assert(params.deep_view() =~= so_far.push(PostgreSqlValueModel::Null));
                },
                Some(bytes) => match param_types[i].decode(&param_formats[i], bytes.as_slice()) {
                    Ok(param) => {
                        params.push(param);
                        assert(params.deep_view() =~= so_far.push(param@));
                    },
                    Err(msg) => {
                        self.sender.send(Err(QueryError::InvalidParameterValue(msg)));
                        assert(self@.sent =~= before.sent + seq![Err(outcome->Err_0)]);
                        return Ok(());
                    },
                },
            }
            i += 1;
        }
        let mut new_stmt = prepared_statement.stmt().clone();
        let description_len = prepared_statement.description().len();
        if self.param_binder.bind(&mut new_stmt, &params, &mut self.sender).is_err() {
            assert(self@.sent =~= before.sent + seq![Err(outcome->Err_0)]);
            return Ok(());
        }
        let result_formats = match pad_formats(result_formats, description_len) {
            Ok(result_formats) => result_formats,
            Err(msg) => {
                self.sender.send(Err(QueryError::ProtocolViolation(msg)));
                assert(self@.sent =~= before.sent + seq![Err(outcome->Err_0)]);
                return Ok(());
            },
        };
        self.session.set_portal(
            portal_name.to_owned(),
            statement_name.to_owned(),
            new_stmt,
            result_formats,
        );
        self.sender.send(Ok(QueryEvent::BindComplete));
        Ok(())
    }

    /// Handles an `Execute`: processes the statement of a portal under its
    /// own SQL text, or sends `PortalDoesNotExist`. The limit on the number
    /// of rows is accepted and not applied.
    pub fn execute_portal(&mut self, portal_name: &str, _max_rows: i32) -> (done: SystemResult<
        (),
    >)
        ensures
            done is Ok,
            final(self)@ == old(self)@.execute_portal(portal_name@),
            old(self)@.wf() ==> final(self)@.wf(),
    {
        proof {
            if self@.wf() {
                lemma_execute_portal_keeps_wf(self@, portal_name@);
            }
        }
        let statement = match self.session.get_portal(portal_name) {
            Some(portal) => portal.stmt().clone(),
            None => {
                self.sender.send(Err(QueryError::PortalDoesNotExist(portal_name.to_owned())));
                assert(self@.sent =~= old(self)@.sent + seq![
                    Err(QueryErrorModel::PortalDoesNotExist(portal_name@)),
                ]);
                return Ok(());
            },
        };
        let raw_sql_query = statement.to_sql();
        self.process_statement(raw_sql_query.as_str(), statement)
    }

    /// Hands the messages that wait to the caller, oldest first, for the
    /// client; none waits afterwards.
    pub fn flush(&mut self) -> (messages: Vec<Result<QueryEvent, QueryError>>)
        ensures
            final(self)@.storage == old(self)@.storage,
            final(self)@.session == old(self)@.session,
            final(self)@.sent == Seq::<Message>::empty(),
            old(self)@.wf() ==> final(self)@.wf(),
            messages@.len() == old(self)@.sent.len(),
            forall|i: int|
                0 <= i < messages@.len() ==> crate::results::message_model(
                    #[trigger] messages@[i],
                ) == old(self)@.sent[i],
    {
        self.sender.flush()
    }
}

/// An error among the first `n` parameters is the error of all of them.
pub proof fn lemma_decoded_params_prefix_error(
    raw_params: Seq<Option<Seq<u8>>>,
    param_types: Seq<PostgreSqlType>,
    formats: Seq<PostgreSqlFormat>,
    n: nat,
    count: nat,
)
    requires
        n <= count,
    ensures
        decoded_params(raw_params, param_types, formats, n) is Err ==> decoded_params(
            raw_params,
            param_types,
            formats,
            count,
        ) == decoded_params(raw_params, param_types, formats, n),
    decreases count - n,
{
    if n < count {
        lemma_decoded_params_prefix_error(raw_params, param_types, formats, n + 1, count);
    }
}

} // verus!
