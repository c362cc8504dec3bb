//! What holds of the engine over all requests, proved from the
//! definitions of its operations.

use crate::ast::{AssignmentModel, ExprModel, SetExprModel, StatementModel};
use crate::catalog_manager::{lemma_create_schema_wf, lemma_create_table_wf,
    lemma_delete_all_from_wf, lemma_drop_schema_wf, lemma_drop_table_wf, lemma_insert_into_wf,
    lemma_update_all_wf, CatalogModel};
use crate::query::bind::{bound_assignments, bound_expr, bound_exprs, bound_rows, bound_statement,
    has_free_parameter, is_placeholder, row_has_placeholder};
use crate::query::plan::PlanModel;
use crate::query::process::{checked_schemas, checked_tables, plan_for};
use crate::results::{Message, QueryEventModel};
use crate::sql_text::sql_text;
use crate::sql_types::{PostgreSqlFormat, PostgreSqlType, PostgreSqlValueModel};
use crate::{drop_schemas_effect, drop_tables_effect, statement_effect, ExecutorModel};
use vstd::prelude::*;

verus! {

/// Whether `QueryComplete` is none of the messages.
pub open spec fn without_query_complete(messages: Seq<Message>) -> bool {
    forall|i: int|
        0 <= i < messages.len() ==> #[trigger] messages[i] != Ok::<
            QueryEventModel,
            crate::results::QueryErrorModel,
        >(QueryEventModel::QueryComplete)
}

/// Dropping schemas sends one message for each schema, none of them
/// `QueryComplete`.
pub proof fn lemma_drop_schemas_messages(catalog: CatalogModel, schemas: Seq<(Seq<char>, bool)>)
    ensures
        drop_schemas_effect(catalog, schemas).messages.len() == schemas.len(),
        without_query_complete(drop_schemas_effect(catalog, schemas).messages),
    decreases schemas.len(),
{
    if schemas.len() > 0 {
        lemma_drop_schemas_messages(catalog, schemas.drop_last());
    }
}

/// Dropping tables sends one message for each table, none of them
/// `QueryComplete`.
pub proof fn lemma_drop_tables_messages(
    catalog: CatalogModel,
    tables: Seq<(Seq<char>, Seq<char>)>,
)
    ensures
        drop_tables_effect(catalog, tables).messages.len() == tables.len(),
        without_query_complete(drop_tables_effect(catalog, tables).messages),
    decreases tables.len(),
{
    if tables.len() > 0 {
        lemma_drop_tables_messages(catalog, tables.drop_last());
    }
}

/// Processing a statement never sends `QueryComplete` by itself.
pub proof fn lemma_statement_messages(
    catalog: CatalogModel,
    raw_sql_query: Seq<char>,
    statement: StatementModel,
)
    ensures
        without_query_complete(statement_effect(catalog, raw_sql_query, statement).messages),
{
    match plan_for(catalog, statement) {
        Ok(PlanModel::DropSchemas(schemas)) => {
            lemma_drop_schemas_messages(catalog, schemas);
        },
        Ok(PlanModel::DropTables(tables)) => {
            lemma_drop_tables_messages(catalog, tables);
        },
        _ => {},
    }
}

/// How many messages a statement sends: a statement that the processor
/// rejects sends its one error and changes nothing; a `DROP` that the
/// processor accepts sends one message for each name; any other statement
/// sends exactly one message.
pub proof fn lemma_statement_message_count(
    catalog: CatalogModel,
    raw_sql_query: Seq<char>,
    statement: StatementModel,
)
    ensures
        plan_for(catalog, statement) matches Err(error) ==> statement_effect(
            catalog,
            raw_sql_query,
            statement,
        ) == (crate::Effect { catalog, messages: seq![Err(error)] }),
        plan_for(catalog, statement) is Ok ==> (statement matches StatementModel::Drop {
            names,
            ..
        } ==> statement_effect(catalog, raw_sql_query, statement).messages.len() == names.len()),
        !(statement is Drop) ==> statement_effect(catalog, raw_sql_query, statement).messages.len()
            == 1,
{
    match plan_for(catalog, statement) {
        Ok(PlanModel::DropSchemas(schemas)) => {
            lemma_drop_schemas_messages(catalog, schemas);
            if let StatementModel::Drop { names, cascade, .. } = statement {
                lemma_checked_schemas_len(catalog, names, cascade);
            }
        },
        Ok(PlanModel::DropTables(tables)) => {
            lemma_drop_tables_messages(catalog, tables);
            if let StatementModel::Drop { names, .. } = statement {
                lemma_checked_tables_len(catalog, names);
            }
        },
        _ => {},
    }
}

/// The tables of an accepted `DROP TABLE` are as many as its names.
pub proof fn lemma_checked_tables_len(catalog: CatalogModel, names: Seq<Seq<Seq<char>>>)
    requires
        checked_tables(catalog, names) is Ok,
    ensures
        checked_tables(catalog, names)->Ok_0.len() == names.len(),
    decreases names.len(),
{
    if names.len() > 0 {
        lemma_checked_tables_len(catalog, names.drop_last());
    }
}

/// The schemas of an accepted `DROP SCHEMA` are as many as its names.
pub proof fn lemma_checked_schemas_len(
    catalog: CatalogModel,
    names: Seq<Seq<Seq<char>>>,
    cascade: bool,
)
    requires
        checked_schemas(catalog, names, cascade) is Ok,
    ensures
        checked_schemas(catalog, names, cascade)->Ok_0.len() == names.len(),
    decreases names.len(),
{
    if names.len() > 0 {
        lemma_checked_schemas_len(catalog, names.drop_last(), cascade);
    }
}

/// Every simple query ends with `QueryComplete`: the messages that waited
/// are kept, the messages of the body follow, and `QueryComplete` comes last
/// and only there, whether the text was a statement or not and whether the
/// statement succeeded or sent an error.
pub proof fn lemma_execute_ends_with_query_complete(
    state: ExecutorModel,
    raw_sql_query: Seq<char>,
    parsed: Option<StatementModel>,
)
    ensures
        ({
            let after = state.execute(raw_sql_query, parsed);
            &&& after.sent.len() > state.sent.len()
            &&& after.sent.subrange(0, state.sent.len() as int) == state.sent
            &&& after.sent.last() == Ok::<QueryEventModel, crate::results::QueryErrorModel>(
                QueryEventModel::QueryComplete,
            )
            &&& without_query_complete(
                after.sent.subrange(state.sent.len() as int, after.sent.len() - 1),
            )
        }),
{
    let body = state.execute_body(raw_sql_query, parsed);
    let after = state.execute(raw_sql_query, parsed);
    if let Some(statement) = parsed {
        lemma_statement_messages(state.storage, raw_sql_query, statement);
    }
    assert(after.sent.subrange(0, state.sent.len() as int) =~= state.sent);
    assert(after.sent.subrange(state.sent.len() as int, after.sent.len() - 1)
        =~= body.sent.subrange(state.sent.len() as int, body.sent.len() as int));
    assert(body.sent.subrange(state.sent.len() as int, body.sent.len() as int) =~= match parsed {
        Some(statement) => statement_effect(state.storage, raw_sql_query, statement).messages,
        None => seq![
            Err(
                crate::results::QueryErrorModel::SyntaxError(
                    crate::parse_error_message(raw_sql_query),
                ),
            ),
        ],
    });
}

/// A simple query whose text is no statement sends exactly the syntax error
/// and `QueryComplete`, and changes neither the catalog nor the session.
pub proof fn lemma_unparsed_query(state: ExecutorModel, raw_sql_query: Seq<char>)
    ensures
        state.execute(raw_sql_query, None) == (ExecutorModel {
            storage: state.storage,
            session: state.session,
            sent: state.sent + seq![
                Err(
                    crate::results::QueryErrorModel::SyntaxError(
                        crate::parse_error_message(raw_sql_query),
                    ),
                ),
                Ok(QueryEventModel::QueryComplete),
            ],
        }),
{
    assert(state.execute(raw_sql_query, None).sent =~= state.sent + seq![
        Err(
            crate::results::QueryErrorModel::SyntaxError(
                crate::parse_error_message(raw_sql_query),
            ),
        ),
        Ok(QueryEventModel::QueryComplete),
    ]);
}

/// A `Describe` that follows a `Parse` which stored its statement sends
/// exactly what the `Parse` stored: the parameter types that it was given
/// and the row description of the statement.
pub proof fn lemma_describe_after_parse(
    state: ExecutorModel,
    statement_name: Seq<char>,
    raw_sql_query: Seq<char>,
    parsed: Option<StatementModel>,
    param_types: Seq<PostgreSqlType>,
)
    requires
        state.parse_succeeds(raw_sql_query, parsed),
    ensures
        ({
            let after = state.parse_prepared_statement(
                statement_name,
                raw_sql_query,
                parsed,
                param_types,
            );
            let description = state.description_to_store(raw_sql_query, parsed->Some_0)->Ok_0;
            &&& after.sent == state.sent.push(Ok(QueryEventModel::ParseComplete))
            &&& after.describe_prepared_statement(statement_name).sent == after.sent.push(
                Ok(QueryEventModel::PreparedStatementDescribed(param_types, description)),
            )
        }),
{
    let after = state.parse_prepared_statement(statement_name, raw_sql_query, parsed, param_types);
    assert(after.session.prepared_statements.contains_key(statement_name));
    assert(after.describe_prepared_statement(statement_name).sent =~= after.sent.push(
        after.describe_message(statement_name),
    ));
}

/// Only a `Parse` changes the prepared statements of a session: a simple
/// query, a `Describe`, a `Bind` and an `Execute` keep each of them, so a
/// later `Describe` still sends what the `Parse` stored.
pub proof fn lemma_prepared_statements_kept(
    state: ExecutorModel,
    raw_sql_query: Seq<char>,
    parsed: Option<StatementModel>,
    name: Seq<char>,
    portal_name: Seq<char>,
    param_formats: Seq<PostgreSqlFormat>,
    raw_params: Seq<Option<Seq<u8>>>,
    result_formats: Seq<PostgreSqlFormat>,
)
    ensures
        state.execute(raw_sql_query, parsed).session.prepared_statements
            == state.session.prepared_statements,
        state.describe_prepared_statement(name).session.prepared_statements
            == state.session.prepared_statements,
        state.bind_prepared_statement_to_portal(
            portal_name,
            name,
            param_formats,
            raw_params,
            result_formats,
        ).session.prepared_statements == state.session.prepared_statements,
        state.execute_portal(portal_name).session.prepared_statements
            == state.session.prepared_statements,
{
}

/// Executing a portal sends what the simple query of its statement sends
/// before the closing `QueryComplete`, and changes the catalog as that
/// query does: with `QueryComplete` added, the two states are the same.
pub proof fn lemma_execute_portal_as_simple_query(state: ExecutorModel, portal_name: Seq<char>)
    requires
        state.session.portals.contains_key(portal_name),
    ensures
        ({
            let statement = state.session.portals[portal_name].stmt;
            state.execute_portal(portal_name).send(seq![Ok(QueryEventModel::QueryComplete)])
                == state.execute(sql_text(statement), Some(statement))
        }),
{
}

/// After a `Bind` that stored its portal, executing the portal behaves as
/// the simple query of the bound statement, under the SQL text of the bound
/// statement, up to the closing `QueryComplete`.
pub proof fn lemma_execute_after_bind(
    state: ExecutorModel,
    portal_name: Seq<char>,
    statement_name: Seq<char>,
    param_formats: Seq<PostgreSqlFormat>,
    raw_params: Seq<Option<Seq<u8>>>,
    result_formats: Seq<PostgreSqlFormat>,
)
    requires
        state.portal_to_bind(statement_name, param_formats, raw_params, result_formats) is Ok,
    ensures
        ({
            let bound = state.bind_prepared_statement_to_portal(
                portal_name,
                statement_name,
                param_formats,
                raw_params,
                result_formats,
            );
            let portal = state.portal_to_bind(
                statement_name,
                param_formats,
                raw_params,
                result_formats,
            )->Ok_0;
            &&& bound.sent == state.sent.push(Ok(QueryEventModel::BindComplete))
            &&& bound.session.portals.contains_key(portal_name)
            &&& bound.session.portals[portal_name] == portal
            &&& bound.execute_portal(portal_name).send(seq![Ok(QueryEventModel::QueryComplete)])
                == bound.execute(sql_text(portal.stmt), Some(portal.stmt))
        }),
{
}

/// Dropping schemas keeps a catalog well formed.
pub proof fn lemma_drop_schemas_wf(catalog: CatalogModel, schemas: Seq<(Seq<char>, bool)>)
    requires
        catalog.wf(),
    ensures
        drop_schemas_effect(catalog, schemas).catalog.wf(),
    decreases schemas.len(),
{
    if schemas.len() > 0 {
        lemma_drop_schemas_wf(catalog, schemas.drop_last());
        lemma_drop_schema_wf(
            drop_schemas_effect(catalog, schemas.drop_last()).catalog,
            schemas.last().0,
        );
    }
}

/// Dropping tables keeps a catalog well formed.
pub proof fn lemma_drop_tables_wf(catalog: CatalogModel, tables: Seq<(Seq<char>, Seq<char>)>)
    requires
        catalog.wf(),
    ensures
        drop_tables_effect(catalog, tables).catalog.wf(),
    decreases tables.len(),
{
    if tables.len() > 0 {
        lemma_drop_tables_wf(catalog, tables.drop_last());
        lemma_drop_table_wf(
            drop_tables_effect(catalog, tables.drop_last()).catalog,
            tables.last().0,
            tables.last().1,
        );
    }
}

/// Every statement keeps a well-formed catalog well formed: no two schemas
/// and no two tables of a schema share a name, and every row has one datum
/// for each column of its table.
pub proof fn lemma_statement_keeps_catalog_wf(
    catalog: CatalogModel,
    raw_sql_query: Seq<char>,
    statement: StatementModel,
)
    requires
        catalog.wf(),
    ensures
        statement_effect(catalog, raw_sql_query, statement).catalog.wf(),
{
    match plan_for(catalog, statement) {
        Err(_) => {},
        Ok(plan) => {
            match plan {
                PlanModel::CreateSchema { schema_name } => {
                    lemma_create_schema_wf(catalog, schema_name);
                },
                PlanModel::CreateTable { schema_name, table_name, columns } => {
                    lemma_create_table_wf(catalog, schema_name, table_name, columns);
                },
                PlanModel::DropSchemas(schemas) => {
                    lemma_drop_schemas_wf(catalog, schemas);
                },
                PlanModel::DropTables(tables) => {
                    lemma_drop_tables_wf(catalog, tables);
                },
                PlanModel::Insert { table_id, column_indices, input } => {
                    match crate::dml::insert::rows_to_insert(
                        catalog,
                        raw_sql_query,
                        table_id,
                        column_indices,
                        input,
                    ) {
                        Ok(rows) => {
                            lemma_insert_into_wf(catalog, table_id.0, table_id.1, rows);
                        },
                        Err(_) => {},
                    }
                },
                PlanModel::NotProcessed(inner) => {
                    match inner {
                        StatementModel::Update { table_name, assignments, .. } => {
                            match crate::dml::update::update_plan(
                                catalog,
                                raw_sql_query,
                                table_name,
                                assignments,
                            ) {
                                Ok((table_id, list)) => {
                                    lemma_update_all_wf(catalog, table_id.0, table_id.1, list);
                                },
                                Err(_) => {},
                            }
                        },
                        StatementModel::Delete { table_name, .. } => {
                            match crate::query::process::checked_table(catalog, table_name) {
                                Ok(table_id) => {
                                    lemma_delete_all_from_wf(catalog, table_id.0, table_id.1);
                                },
                                Err(_) => {},
                            }
                        },
                        _ => {},
                    }
                },
            }
        },
    }
}

/// A simple query keeps the state of the engine well formed.
pub proof fn lemma_execute_keeps_wf(
    state: ExecutorModel,
    raw_sql_query: Seq<char>,
    parsed: Option<StatementModel>,
)
    requires
        state.wf(),
    ensures
        state.execute(raw_sql_query, parsed).wf(),
{
    if let Some(statement) = parsed {
        lemma_statement_keeps_catalog_wf(state.storage, raw_sql_query, statement);
    }
}

/// A `Parse` keeps the state of the engine well formed.
pub proof fn lemma_parse_keeps_wf(
    state: ExecutorModel,
    statement_name: Seq<char>,
    raw_sql_query: Seq<char>,
    parsed: Option<StatementModel>,
    param_types: Seq<PostgreSqlType>,
)
    requires
        state.wf(),
    ensures
        state.parse_prepared_statement(statement_name, raw_sql_query, parsed, param_types).wf(),
{
    let after = state.parse_prepared_statement(
        statement_name,
        raw_sql_query,
        parsed,
        param_types,
    );
    assert forall|other: Seq<char>| #[trigger]
        after.session.portals.contains_key(
            other,
        ) implies after.session.prepared_statements.contains_key(
        after.session.portals[other].statement_name,
    ) by {
        assert(state.session.portals.contains_key(other));
    }
}

/// A `Describe` keeps the state of the engine well formed.
pub proof fn lemma_describe_keeps_wf(state: ExecutorModel, name: Seq<char>)
    requires
        state.wf(),
    ensures
        state.describe_prepared_statement(name).wf(),
{
}

/// A `Bind` keeps the state of the engine well formed: the portal that it
/// stores names the prepared statement that it was bound from.
pub proof fn lemma_bind_keeps_wf(
    state: ExecutorModel,
    portal_name: Seq<char>,
    statement_name: Seq<char>,
    param_formats: Seq<PostgreSqlFormat>,
    raw_params: Seq<Option<Seq<u8>>>,
    result_formats: Seq<PostgreSqlFormat>,
)
    requires
        state.wf(),
    ensures
        state.bind_prepared_statement_to_portal(
            portal_name,
            statement_name,
            param_formats,
            raw_params,
            result_formats,
        ).wf(),
{
    let after = state.bind_prepared_statement_to_portal(
        portal_name,
        statement_name,
        param_formats,
        raw_params,
        result_formats,
    );
    assert forall|other: Seq<char>| #[trigger]
        after.session.portals.contains_key(
            other,
        ) implies after.session.prepared_statements.contains_key(
        after.session.portals[other].statement_name,
    ) by {
        if other != portal_name || state.portal_to_bind(
            statement_name,
            param_formats,
            raw_params,
            result_formats,
        ) is Err {
            assert(state.session.portals.contains_key(other));
        }
    }
}

/// An `Execute` keeps the state of the engine well formed.
pub proof fn lemma_execute_portal_keeps_wf(state: ExecutorModel, portal_name: Seq<char>)
    requires
        state.wf(),
    ensures
        state.execute_portal(portal_name).wf(),
{
    if state.session.portals.contains_key(portal_name) {
        let statement = state.session.portals[portal_name].stmt;
        lemma_statement_keeps_catalog_wf(state.storage, sql_text(statement), statement);
    }
}

/// A bound expression is no placeholder.
pub proof fn lemma_bound_expr_is_no_placeholder(
    expr: ExprModel,
    params: Seq<PostgreSqlValueModel>,
)
    requires
        bound_expr(expr, params) is Ok,
    ensures
        !is_placeholder(bound_expr(expr, params)->Ok_0),
{
}

/// Bound expressions are as many as there were, and none is a placeholder.
pub proof fn lemma_bound_exprs_have_no_placeholder(
    exprs: Seq<ExprModel>,
    params: Seq<PostgreSqlValueModel>,
)
    requires
        bound_exprs(exprs, params) is Ok,
    ensures
        bound_exprs(exprs, params)->Ok_0.len() == exprs.len(),
        forall|c: int|
            0 <= c < exprs.len() ==> !is_placeholder(
                #[trigger] bound_exprs(exprs, params)->Ok_0[c],
            ),
    decreases exprs.len(),
{
    if exprs.len() > 0 {
        lemma_bound_exprs_have_no_placeholder(exprs.drop_last(), params);
        lemma_bound_expr_is_no_placeholder(exprs.last(), params);
    }
}

/// Bound rows are as many as there were, and none holds a placeholder.
pub proof fn lemma_bound_rows_have_no_placeholder(
    rows: Seq<Seq<ExprModel>>,
    params: Seq<PostgreSqlValueModel>,
)
    requires
        bound_rows(rows, params) is Ok,
    ensures
        bound_rows(rows, params)->Ok_0.len() == rows.len(),
        forall|r: int|
            0 <= r < rows.len() ==> !row_has_placeholder(
                #[trigger] bound_rows(rows, params)->Ok_0[r],
            ),
    decreases rows.len(),
{
    if rows.len() > 0 {
        lemma_bound_rows_have_no_placeholder(rows.drop_last(), params);
        lemma_bound_exprs_have_no_placeholder(rows.last(), params);
    }
}

/// Bound assignments are as many as there were, and none has a placeholder
/// for its value.
pub proof fn lemma_bound_assignments_have_no_placeholder(
    assignments: Seq<AssignmentModel>,
    params: Seq<PostgreSqlValueModel>,
)
    requires
        bound_assignments(assignments, params) is Ok,
    ensures
        bound_assignments(assignments, params)->Ok_0.len() == assignments.len(),
        forall|a: int|
            0 <= a < assignments.len() ==> !is_placeholder(
                (#[trigger] bound_assignments(assignments, params)->Ok_0[a]).value,
            ),
    decreases assignments.len(),
{
    if assignments.len() > 0 {
        lemma_bound_assignments_have_no_placeholder(assignments.drop_last(), params);
        lemma_bound_expr_is_no_placeholder(assignments.last().value, params);
    }
}

/// A bound statement holds no free parameter: no expression that it keeps
/// is a placeholder. In an `INSERT ... VALUES` and in an `UPDATE` every
/// placeholder was replaced by a literal; any other statement is bound only
/// where it holds none.
pub proof fn lemma_bound_statement_has_no_free_parameter(
    statement: StatementModel,
    params: Seq<PostgreSqlValueModel>,
)
    requires
        bound_statement(statement, params) is Ok,
    ensures
        !has_free_parameter(bound_statement(statement, params)->Ok_0),
{
    match statement {
        StatementModel::Insert { table_name, columns, source } => {
            if let SetExprModel::Values(rows) = source.body {
                lemma_bound_rows_have_no_placeholder(rows, params);
            }
        },
        StatementModel::Update { table_name, assignments, selection } => {
            lemma_bound_assignments_have_no_placeholder(assignments, params);
        },
        _ => {},
    }
}

/// Every portal that a `Bind` stores holds a statement without a free
/// parameter.
pub proof fn lemma_bound_portal_has_no_free_parameter(
    state: ExecutorModel,
    statement_name: Seq<char>,
    param_formats: Seq<PostgreSqlFormat>,
    raw_params: Seq<Option<Seq<u8>>>,
    result_formats: Seq<PostgreSqlFormat>,
)
    requires
        state.portal_to_bind(statement_name, param_formats, raw_params, result_formats) is Ok,
    ensures
        !has_free_parameter(
            state.portal_to_bind(
                statement_name,
                param_formats,
                raw_params,
                result_formats,
            )->Ok_0.stmt,
        ),
{
    let prepared = state.session.prepared_statements[statement_name];
    let formats = crate::padded_formats(param_formats, raw_params.len())->Ok_0;
    let params = crate::decoded_params(
        raw_params,
        prepared.param_types,
        formats,
        raw_params.len(),
    )->Ok_0;
    lemma_bound_statement_has_no_free_parameter(prepared.stmt, params);
}

} // verus!
