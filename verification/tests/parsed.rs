use sql_engine::ast::{Assignment, ColumnDef, DataType, Expr, Ident, ObjectName, ObjectType, Query,
    QuoteStyle, Select, SelectItem, SetExpr, Statement, TableFactor, TableWithJoins, Value};
use sql_engine::catalog_manager::CatalogManager;
use sql_engine::results::{QueryError, QueryEvent, Sender};
use sql_engine::sql_types::{PostgreSqlFormat, PostgreSqlType};
use sql_engine::{PreparedStatementDialect, QueryExecutor};
use sqlparser::ast as parsed;
use sqlparser::dialect::{Dialect, PostgreSqlDialect};
use sqlparser::parser::Parser;

#[derive(Debug)]
struct Placeholders {}

impl Dialect for Placeholders {
    fn is_identifier_start(&self, ch: char) -> bool {
        PreparedStatementDialect {}.is_identifier_start(ch)
    }

    fn is_identifier_part(&self, ch: char) -> bool {
        PreparedStatementDialect {}.is_identifier_part(ch)
    }
}

fn to_statement(statement: parsed::Statement) -> Statement {
    let text = statement.to_string();
    match statement {
        parsed::Statement::Query(query) => Statement::Query(to_query(*query)),
        parsed::Statement::Insert { table_name, columns, source } => Statement::Insert {
            table_name: to_name(table_name),
            columns: columns.into_iter().map(to_ident).collect(),
            source: to_query(*source),
        },
        parsed::Statement::Update { table_name, assignments, selection } => Statement::Update {
            table_name: to_name(table_name),
            assignments: assignments.into_iter().map(to_assignment).collect(),
            selection: selection.map(|condition| condition.to_string()),
        },
        parsed::Statement::Delete { table_name, selection } => Statement::Delete {
            table_name: to_name(table_name),
            selection: selection.map(|condition| condition.to_string()),
        },
        parsed::Statement::CreateTable { name, columns, .. } => Statement::CreateTable {
            name: to_name(name),
            columns: columns.into_iter().map(to_column).collect(),
            text,
        },
        parsed::Statement::CreateSchema { schema_name } => {
            Statement::CreateSchema { schema_name: to_name(schema_name) }
        }
        parsed::Statement::Drop { object_type, if_exists, names, cascade } => Statement::Drop {
            object_type: match object_type {
                parsed::ObjectType::Table => ObjectType::Table,
                parsed::ObjectType::Schema => ObjectType::Schema,
                other => panic!("DROP {} is not implemented", other),
            },
            if_exists,
            names: names.into_iter().map(to_name).collect(),
            cascade,
        },
        parsed::Statement::StartTransaction { .. } => Statement::StartTransaction(text),
        parsed::Statement::SetVariable { .. } => Statement::SetVariable(text),
        _ => Statement::Other(text),
    }
}

fn to_ident(ident: parsed::Ident) -> Ident {
    Ident {
        value: ident.value,
        quote_style: match ident.quote_style {
            None => None,
            Some('"') => Some(QuoteStyle::Double),
            Some('\'') => Some(QuoteStyle::Single),
            Some('`') => Some(QuoteStyle::Backtick),
            Some('[') => Some(QuoteStyle::Bracket),
            Some(_) => panic!("unexpected quote style"),
        },
    }
}

fn to_name(name: parsed::ObjectName) -> ObjectName {
    ObjectName(name.0.iter().map(|segment| segment.to_string()).collect())
}

fn to_query(query: parsed::Query) -> Query {
    Query {
        ctes: query.ctes.iter().map(|cte| cte.to_string()).collect(),
        body: match query.body {
            parsed::SetExpr::Select(select) => SetExpr::Select(to_select(*select)),
            parsed::SetExpr::Values(values) => SetExpr::Values(
                values.0.into_iter().map(|row| row.into_iter().map(to_expr).collect()).collect(),
            ),
            other => SetExpr::Other(other.to_string()),
        },
        order_by: query.order_by.iter().map(|order| order.to_string()).collect(),
        limit: query.limit.map(|limit| limit.to_string()),
        offset: query.offset.map(|offset| offset.to_string()),
        fetch: query.fetch.map(|fetch| fetch.to_string()),
    }
}

fn to_select(select: parsed::Select) -> Select {
    let text = select.to_string();
    Select {
        projection: select.projection.into_iter().map(to_item).collect(),
        from: select.from.into_iter().map(to_table).collect(),
        text,
    }
}

fn to_item(item: parsed::SelectItem) -> SelectItem {
    match item {
        parsed::SelectItem::Wildcard => SelectItem::Wildcard,
        parsed::SelectItem::UnnamedExpr(expr) => SelectItem::UnnamedExpr(to_expr(expr)),
        other => SelectItem::Other(other.to_string()),
    }
}

fn to_table(table: parsed::TableWithJoins) -> TableWithJoins {
    TableWithJoins {
        relation: match table.relation {
            parsed::TableFactor::Table { name, .. } => TableFactor::Table { name: to_name(name) },
            other => TableFactor::Other(other.to_string()),
        },
        joins: table.joins.iter().map(|join| join.to_string()).collect(),
    }
}

fn to_expr(expr: parsed::Expr) -> Expr {
    match expr {
        parsed::Expr::Identifier(identifier) => Expr::Identifier(to_ident(identifier)),
        parsed::Expr::Value(parsed::Value::Number(digits)) => Expr::Value(Value::Number(digits)),
        parsed::Expr::Value(parsed::Value::SingleQuotedString(text)) => {
            Expr::Value(Value::SingleQuotedString(text))
        }
        parsed::Expr::Value(parsed::Value::Boolean(b)) => Expr::Value(Value::Boolean(b)),
        parsed::Expr::Value(parsed::Value::Null) => Expr::Value(Value::Null),
        parsed::Expr::UnaryOp { op: parsed::UnaryOperator::Minus, expr } => match *expr {
            parsed::Expr::Value(parsed::Value::Number(digits)) => Expr::Negative(digits),
            inner => Expr::Other(
                parsed::Expr::UnaryOp { op: parsed::UnaryOperator::Minus, expr: Box::new(inner) }
                    .to_string(),
            ),
        },
        other => Expr::Other(other.to_string()),
    }
}

fn to_assignment(assignment: parsed::Assignment) -> Assignment {
    Assignment { id: to_ident(assignment.id), value: to_expr(assignment.value) }
}

fn to_column(column: parsed::ColumnDef) -> ColumnDef {
    ColumnDef { name: column.name.value, data_type: to_data_type(column.data_type) }
}

fn to_data_type(data_type: parsed::DataType) -> DataType {
    match data_type {
        parsed::DataType::SmallInt => DataType::SmallInt,
        parsed::DataType::Int => DataType::Int,
        parsed::DataType::BigInt => DataType::BigInt,
        parsed::DataType::Char(len) => DataType::Char(len),
        parsed::DataType::Varchar(len) => DataType::Varchar(len),
        parsed::DataType::Boolean => DataType::Boolean,
        parsed::DataType::Custom(name) => DataType::Custom(name.to_string()),
        other => DataType::Other(other.to_string()),
    }
}

fn parse_with(dialect: &dyn Dialect, sql: &str) -> Option<Statement> {
    match Parser::parse_sql(dialect, sql) {
        Ok(mut statements) => Some(to_statement(statements.pop().unwrap())),
        Err(_) => None,
    }
}

fn simple(executor: &mut QueryExecutor, sql: &str) -> Vec<Result<QueryEvent, QueryError>> {
    let parsed = parse_with(&PostgreSqlDialect {}, sql);
    assert_eq!(executor.execute(sql, parsed), Ok(()));
    executor.flush()
}

fn prepare(
    executor: &mut QueryExecutor,
    name: &str,
    sql: &str,
    param_types: &[PostgreSqlType],
) -> Vec<Result<QueryEvent, QueryError>> {
    let parsed = parse_with(&Placeholders {}, sql);
    let _ = executor.parse_prepared_statement(name, sql, parsed, param_types);
    executor.flush()
}

fn with_table() -> QueryExecutor {
    let mut executor = QueryExecutor::new(CatalogManager::new(), Sender::new());
    simple(&mut executor, "CREATE SCHEMA s");
    simple(&mut executor, "CREATE TABLE s.t (a smallint, b varchar)");
    executor
}

fn texts(rows: &[&[&str]]) -> Vec<Vec<String>> {
    rows.iter().map(|r| r.iter().map(|f| f.to_string()).collect()).collect()
}

#[test]
fn parsed_create_insert_select_round_trip() {
    let mut executor = QueryExecutor::new(CatalogManager::new(), Sender::new());
    let mut events = vec![];
    for sql in [
        "CREATE SCHEMA s",
        "CREATE TABLE s.t (a smallint, b varchar)",
        "INSERT INTO s.t VALUES (1, 'x')",
        "SELECT b, a FROM s.t",
    ] {
        events.extend(simple(&mut executor, sql));
    }
    assert_eq!(
        events,
        vec![
            Ok(QueryEvent::SchemaCreated),
            Ok(QueryEvent::QueryComplete),
            Ok(QueryEvent::TableCreated),
            Ok(QueryEvent::QueryComplete),
            Ok(QueryEvent::RecordsInserted(1)),
            Ok(QueryEvent::QueryComplete),
            Ok(QueryEvent::RecordsSelected(
                vec![
                    ("b".to_string(), PostgreSqlType::VarChar),
                    ("a".to_string(), PostgreSqlType::SmallInt)
                ],
                texts(&[&["x", "1"]])
            )),
            Ok(QueryEvent::QueryComplete),
        ]
    );
}

#[test]
fn parsed_select_of_an_unknown_column() {
    let mut executor = with_table();
    assert_eq!(
        simple(&mut executor, "SELECT c FROM s.t"),
        vec![
            Err(QueryError::ColumnDoesNotExist(vec!["c".to_string()])),
            Ok(QueryEvent::QueryComplete)
        ]
    );
}

#[test]
fn parsed_select_from_an_unqualified_table() {
    let mut executor = with_table();
    assert_eq!(
        simple(&mut executor, "SELECT * FROM t"),
        vec![
            Err(QueryError::FeatureNotSupported("SELECT * FROM t".to_string())),
            Ok(QueryEvent::QueryComplete)
        ]
    );
}

#[test]
fn parsed_unsupported_queries() {
    let mut executor = with_table();
    for sql in [
        "SELECT * FROM s.t JOIN s.t ON true",
        "SELECT * FROM s.t, s.t",
        "SELECT * FROM (SELECT * FROM s.t) AS x",
        "SELECT a + 1 FROM s.t",
        "SELECT a AS z FROM s.t",
        "SELECT s.t.* FROM s.t",
        "SELECT a FROM s.t UNION SELECT a FROM s.t",
        "SELECT 1",
        "COMMIT",
        "ROLLBACK",
    ] {
        assert_eq!(
            simple(&mut executor, sql),
            vec![
                Err(QueryError::FeatureNotSupported(sql.to_string())),
                Ok(QueryEvent::QueryComplete)
            ]
        );
    }
}

#[test]
fn parsed_text_that_is_no_statement() {
    let mut executor = with_table();
    assert_eq!(
        simple(&mut executor, "SELEC a FROM s.t"),
        vec![
            Err(QueryError::SyntaxError("\"SELEC a FROM s.t\" can't be parsed".to_string())),
            Ok(QueryEvent::QueryComplete)
        ]
    );
}

#[test]
fn parsed_transactions_and_variables() {
    let mut executor = with_table();
    assert_eq!(
        simple(&mut executor, "START TRANSACTION"),
        vec![Ok(QueryEvent::TransactionStarted), Ok(QueryEvent::QueryComplete)]
    );
    assert_eq!(
        simple(&mut executor, "BEGIN"),
        vec![Ok(QueryEvent::TransactionStarted), Ok(QueryEvent::QueryComplete)]
    );
    assert_eq!(
        simple(&mut executor, "SET search_path = s"),
        vec![Ok(QueryEvent::VariableSet), Ok(QueryEvent::QueryComplete)]
    );
}

#[test]
fn parsed_statements_change_the_catalog() {
    let mut executor = with_table();
    let complete = |event: QueryEvent| vec![Ok(event), Ok(QueryEvent::QueryComplete)];
    assert_eq!(
        simple(&mut executor, "INSERT INTO s.t (b, a) VALUES ('y', 2), ('z', 1 - 3), (NULL, 4)"),
        vec![
            Err(QueryError::FeatureNotSupported(
                "INSERT INTO s.t (b, a) VALUES ('y', 2), ('z', 1 - 3), (NULL, 4)".to_string()
            )),
            Ok(QueryEvent::QueryComplete)
        ]
    );
    assert_eq!(
        simple(&mut executor, "INSERT INTO s.t (b, a) VALUES ('y', 2), ('z', -3), (NULL, 4)"),
        complete(QueryEvent::RecordsInserted(3))
    );
    assert_eq!(
        simple(&mut executor, "UPDATE s.t SET b = 'w'"),
        complete(QueryEvent::RecordsUpdated(3))
    );
    assert_eq!(
        simple(&mut executor, "SELECT * FROM s.t"),
        complete(QueryEvent::RecordsSelected(
            vec![
                ("a".to_string(), PostgreSqlType::SmallInt),
                ("b".to_string(), PostgreSqlType::VarChar)
            ],
            texts(&[&["2", "w"], &["-3", "w"], &["4", "w"]])
        ))
    );
    assert_eq!(simple(&mut executor, "DELETE FROM s.t"), complete(QueryEvent::RecordsDeleted(3)));
    assert_eq!(
        simple(&mut executor, "CREATE TABLE s.u (id serial, big bigserial, c char(3), t text)"),
        vec![
            Err(QueryError::FeatureNotSupported("TEXT type is not supported".to_string())),
            Ok(QueryEvent::QueryComplete)
        ]
    );
    assert_eq!(
        simple(&mut executor, "CREATE TABLE s.u (id serial, ok boolean, c char(3), n int)"),
        complete(QueryEvent::TableCreated)
    );
    assert_eq!(
        simple(&mut executor, "DROP TABLE s.u, s.t"),
        vec![
            Ok(QueryEvent::TableDropped),
            Ok(QueryEvent::TableDropped),
            Ok(QueryEvent::QueryComplete)
        ]
    );
    assert_eq!(simple(&mut executor, "DROP SCHEMA s CASCADE"), complete(QueryEvent::SchemaDropped));
    assert_eq!(
        simple(&mut executor, "DROP SCHEMA s"),
        vec![Err(QueryError::SchemaDoesNotExist("s".to_string())), Ok(QueryEvent::QueryComplete)]
    );
}

#[test]
fn parsed_prepared_statement_is_described() {
    let mut executor = with_table();
    assert_eq!(
        prepare(&mut executor, "s1", "SELECT a FROM s.t", &[]),
        vec![Ok(QueryEvent::ParseComplete)]
    );
    executor.describe_prepared_statement("s1").unwrap();
    assert_eq!(
        executor.flush(),
        vec![Ok(QueryEvent::PreparedStatementDescribed(
            vec![],
            vec![("a".to_string(), PostgreSqlType::SmallInt)]
        ))]
    );
    executor.bind_prepared_statement_to_portal("first", "s1", &[], &[None], &[]).unwrap();
    assert_eq!(
        executor.flush(),
        vec![Err(QueryError::ProtocolViolation(
            "Bind message supplies 1 parameters, but prepared statement \"s1\" requires 0"
                .to_string()
        ))]
    );
}

#[test]
fn parsed_placeholders_are_bound_and_executed() {
    let mut executor = with_table();
    assert_eq!(
        prepare(
            &mut executor,
            "ins",
            "INSERT INTO s.t VALUES ($1, $2)",
            &[PostgreSqlType::SmallInt, PostgreSqlType::VarChar]
        ),
        vec![Ok(QueryEvent::ParseComplete)]
    );
    executor
        .bind_prepared_statement_to_portal(
            "p",
            "ins",
            &[PostgreSqlFormat::Binary, PostgreSqlFormat::Text],
            &[Some(vec![0, 5]), Some(b"five".to_vec())],
            &[],
        )
        .unwrap();
    executor.execute_portal("p", 0).unwrap();
    assert_eq!(
        executor.flush(),
        vec![Ok(QueryEvent::BindComplete), Ok(QueryEvent::RecordsInserted(1))]
    );
    assert_eq!(
        prepare(&mut executor, "upd", "UPDATE s.t SET a = $1", &[PostgreSqlType::SmallInt]),
        vec![Ok(QueryEvent::ParseComplete)]
    );
    executor
        .bind_prepared_statement_to_portal("q", "upd", &[], &[Some(b"6".to_vec())], &[])
        .unwrap();
    executor.execute_portal("q", 0).unwrap();
    assert_eq!(
        executor.flush(),
        vec![Ok(QueryEvent::BindComplete), Ok(QueryEvent::RecordsUpdated(1))]
    );
    assert_eq!(executor.storage().full_scan("s", "t"), texts(&[&["6", "five"]]));
}

#[test]
fn parsed_bound_statement_reads_as_the_parser_writes_it() {
    let mut executor = with_table();
    prepare(
        &mut executor,
        "ins",
        "INSERT INTO s.t (a, b) VALUES ($1, $2), (7, 'it''s')",
        &[PostgreSqlType::SmallInt, PostgreSqlType::VarChar],
    );
    executor
        .bind_prepared_statement_to_portal(
            "p",
            "ins",
            &[],
            &[Some(b"-5".to_vec()), Some(b"o'clock".to_vec())],
            &[],
        )
        .unwrap();
    let bound = executor.session().get_portal("p").unwrap().stmt().clone();
    let sql = bound.to_sql();
    assert_eq!(sql, "INSERT INTO s.t (a, b) VALUES (- 5, 'o''clock'), (7, 'it''s')");
    assert_eq!(parse_with(&PostgreSqlDialect {}, &sql), Some(bound));
    for text in [
        "SELECT b, a FROM s.t",
        "SELECT * FROM s.t",
        "INSERT INTO s.t VALUES (1, 'x'), (NULL, true)",
        "INSERT INTO s.t VALUES (- 1, 'x'), (- a, - (1 + 2))",
        "UPDATE s.t SET a = 1, b = 'y'",
        "DELETE FROM s.t",
        "CREATE SCHEMA s",
        "CREATE TABLE s.t (a SMALLINT, b CHARACTER VARYING(10), c CHAR, d INT, e BIGINT, f BOOLEAN)",
        "DROP TABLE s.t, s.u",
        "DROP SCHEMA s CASCADE",
        "COMMIT",
        "SELECT a FROM s.t JOIN s.u ON x = y",
        "SELECT DISTINCT \"a\", b AS c FROM s.t AS u WHERE a = 1 GROUP BY b HAVING b > 2 ORDER BY a LIMIT 3",
        "WITH x AS (SELECT 1) SELECT a FROM x ORDER BY a DESC",
        "INSERT INTO \"S\".\"T\" (\"a b\", c) VALUES (\"x\", - 1), (z, 'y')",
        "INSERT INTO s.t SELECT a FROM s.u WHERE a > 0",
        "UPDATE s.t SET \"a\" = 1, b = c + 1 WHERE a = 2",
        "DELETE FROM s.t WHERE a = 2",
        "DROP TABLE IF EXISTS s.t, s.u CASCADE",
        "START TRANSACTION READ ONLY",
        "SET search_path = s",
        "CREATE TABLE s.t (a INT NOT NULL, b CHARACTER VARYING(10) DEFAULT 'x')",
    ] {
        let statement = parse_with(&PostgreSqlDialect {}, text).unwrap();
        assert_eq!(statement.to_sql(), text);
    }
}

#[test]
fn parsed_names_are_kept_as_they_were_written() {
    let mut executor = QueryExecutor::new(CatalogManager::new(), Sender::new());
    simple(&mut executor, "CREATE SCHEMA \"S\"");
    simple(&mut executor, "CREATE TABLE \"S\".t (\"a b\" int, c int)");
    assert!(executor.storage().schema_exists("\"S\"").is_some());
    assert!(executor.storage().schema_exists("S").is_none());
    assert_eq!(
        simple(&mut executor, "INSERT INTO \"S\".t (c, \"a b\") VALUES (1, 2)"),
        vec![Ok(QueryEvent::RecordsInserted(1)), Ok(QueryEvent::QueryComplete)]
    );
    assert_eq!(
        simple(&mut executor, "SELECT \"a b\", c FROM \"S\".t"),
        vec![
            Ok(QueryEvent::RecordsSelected(
                vec![
                    ("a b".to_string(), PostgreSqlType::Integer),
                    ("c".to_string(), PostgreSqlType::Integer)
                ],
                texts(&[&["2", "1"]])
            )),
            Ok(QueryEvent::QueryComplete)
        ]
    );
    assert_eq!(
        simple(&mut executor, "SELECT c FROM S.t"),
        vec![Err(QueryError::SchemaDoesNotExist("S".to_string())), Ok(QueryEvent::QueryComplete)]
    );
    assert_eq!(
        prepare(&mut executor, "up", "UPDATE \"S\".t SET \"a b\" = $1 WHERE c = 1", &[
            PostgreSqlType::Integer
        ]),
        vec![Ok(QueryEvent::ParseComplete)]
    );
    executor
        .bind_prepared_statement_to_portal("po", "up", &[], &[Some(b"-4".to_vec())], &[])
        .unwrap();
    let bound = executor.session().get_portal("po").unwrap().stmt().clone();
    assert_eq!(bound.to_sql(), "UPDATE \"S\".t SET \"a b\" = - 4 WHERE c = 1");
    assert_eq!(parse_with(&PostgreSqlDialect {}, &bound.to_sql()), Some(bound));
}
