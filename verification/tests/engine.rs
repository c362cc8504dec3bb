use sql_engine::ast::{Assignment, ColumnDef, DataType, Expr, Ident, ObjectName, ObjectType, Query,
    QuoteStyle, Select, SelectItem, SetExpr, Statement, TableFactor, TableWithJoins, Value};
use sql_engine::catalog_manager::CatalogManager;
use sql_engine::results::{QueryError, QueryEvent, Sender, SystemError};
use sql_engine::sql_types::{PostgreSqlFormat, PostgreSqlType, SqlType};
use sql_engine::{ColumnDefinition, QueryExecutor};

type Message = Result<QueryEvent, QueryError>;

fn name(segments: &[&str]) -> ObjectName {
    ObjectName(segments.iter().map(|s| s.to_string()).collect())
}

fn ident(text: &str) -> Expr {
    Expr::Identifier(Ident::new(text))
}

fn number(text: &str) -> Expr {
    Expr::Value(Value::Number(text.to_string()))
}

fn string(text: &str) -> Expr {
    Expr::Value(Value::SingleQuotedString(text.to_string()))
}

fn create_schema(schema: &str) -> Statement {
    Statement::CreateSchema { schema_name: name(&[schema]) }
}

fn create_table(table: &[&str], columns: Vec<(&str, DataType)>) -> Statement {
    Statement::CreateTable {
        name: name(table),
        columns: columns
            .into_iter()
            .map(|(n, t)| ColumnDef { name: n.to_string(), data_type: t })
            .collect(),
        text: String::new(),
    }
}

fn insert(table: &[&str], columns: &[&str], rows: Vec<Vec<Expr>>) -> Statement {
    Statement::Insert {
        table_name: name(table),
        columns: columns.iter().map(|c| Ident::new(c)).collect(),
        source: Query::new(SetExpr::Values(rows)),
    }
}

fn from_table(table: &[&str]) -> Vec<TableWithJoins> {
    vec![TableWithJoins { relation: TableFactor::Table { name: name(table) }, joins: vec![] }]
}

fn select_items(items: Vec<SelectItem>, table: &[&str]) -> Statement {
    Statement::Query(Query::new(SetExpr::Select(Select { text: String::new(), projection: items, from: from_table(table) })))
}

fn select(columns: &[&str], table: &[&str]) -> Statement {
    select_items(columns.iter().map(|c| SelectItem::UnnamedExpr(ident(c))).collect(), table)
}

fn select_all(table: &[&str]) -> Statement {
    select_items(vec![SelectItem::Wildcard], table)
}

fn update(table: &[&str], assignments: Vec<(&str, Expr)>) -> Statement {
    Statement::Update {
        table_name: name(table),
        assignments: assignments
            .into_iter()
            .map(|(id, value)| Assignment { id: Ident::new(id), value })
            .collect(),
        selection: None,
    }
}

fn delete(table: &[&str]) -> Statement {
    Statement::Delete { table_name: name(table), selection: None }
}

fn drop_objects(object_type: ObjectType, names: Vec<ObjectName>, cascade: bool) -> Statement {
    Statement::Drop { object_type, if_exists: false, names, cascade }
}

fn executor() -> QueryExecutor {
    QueryExecutor::new(CatalogManager::new(), Sender::new())
}

fn run(executor: &mut QueryExecutor, sql: &str, statement: Statement) -> Vec<Message> {
    assert_eq!(executor.execute(sql, Some(statement)), Ok(()));
    executor.flush()
}

fn rows(rows: &[&[&str]]) -> Vec<Vec<String>> {
    rows.iter().map(|r| r.iter().map(|f| f.to_string()).collect()).collect()
}

fn description(columns: &[(&str, PostgreSqlType)]) -> Vec<(String, PostgreSqlType)> {
    columns.iter().map(|(n, t)| (n.to_string(), *t)).collect()
}

/// An executor with the schema `s` and the table `s.t (a smallint, b varchar)`.
fn executor_with_table() -> QueryExecutor {
    let mut executor = executor();
    run(&mut executor, "CREATE SCHEMA s", create_schema("s"));
    run(
        &mut executor,
        "CREATE TABLE s.t (a smallint, b varchar)",
        create_table(&["s", "t"], vec![("a", DataType::SmallInt), ("b", DataType::Varchar(None))]),
    );
    executor
}

#[test]
fn create_insert_select_round_trip() {
    let mut executor = executor();
    let mut events = vec![];
    events.extend(run(&mut executor, "CREATE SCHEMA s", create_schema("s")));
    events.extend(run(
        &mut executor,
        "CREATE TABLE s.t (a smallint, b varchar)",
        create_table(&["s", "t"], vec![("a", DataType::SmallInt), ("b", DataType::Varchar(None))]),
    ));
    events.extend(run(
        &mut executor,
        "INSERT INTO s.t VALUES (1, 'x')",
        insert(&["s", "t"], &[], vec![vec![number("1"), string("x")]]),
    ));
    events.extend(run(&mut executor, "SELECT b, a FROM s.t", select(&["b", "a"], &["s", "t"])));
    assert_eq!(
        events,
        vec![
            Ok(QueryEvent::SchemaCreated),
            Ok(QueryEvent::QueryComplete),
            Ok(QueryEvent::TableCreated),
            Ok(QueryEvent::QueryComplete),
            Ok(QueryEvent::RecordsInserted(1)),
            Ok(QueryEvent::QueryComplete),
            Ok(QueryEvent::RecordsSelected(
                description(&[("b", PostgreSqlType::VarChar), ("a", PostgreSqlType::SmallInt)]),
                rows(&[&["x", "1"]])
            )),
            Ok(QueryEvent::QueryComplete),
        ]
    );
}

#[test]
fn select_of_an_unknown_column() {
    let mut executor = executor_with_table();
    assert_eq!(
        run(&mut executor, "SELECT c FROM s.t", select(&["c"], &["s", "t"])),
        vec![
            Err(QueryError::ColumnDoesNotExist(vec!["c".to_string()])),
            Ok(QueryEvent::QueryComplete)
        ]
    );
}

#[test]
fn select_names_every_unknown_column_in_selection_order() {
    let mut executor = executor_with_table();
    assert_eq!(
        run(&mut executor, "SELECT z, a, c, z FROM s.t", select(&["z", "a", "c", "z"], &["s", "t"])),
        vec![
            Err(QueryError::ColumnDoesNotExist(vec![
                "z".to_string(),
                "c".to_string(),
                "z".to_string()
            ])),
            Ok(QueryEvent::QueryComplete)
        ]
    );
}

#[test]
fn select_from_an_unqualified_table() {
    let mut executor = executor_with_table();
    assert_eq!(
        run(&mut executor, "SELECT * FROM t", select_all(&["t"])),
        vec![
            Err(QueryError::FeatureNotSupported("SELECT * FROM t".to_string())),
            Ok(QueryEvent::QueryComplete)
        ]
    );
}

#[test]
fn select_shapes_that_are_not_supported() {
    let mut executor = executor_with_table();
    let unsupported = |sql: &str| {
        vec![Err(QueryError::FeatureNotSupported(sql.to_string())), Ok(QueryEvent::QueryComplete)]
    };
    let three = select_all(&["d", "s", "t"]);
    assert_eq!(run(&mut executor, "SELECT * FROM d.s.t", three), unsupported("SELECT * FROM d.s.t"));
    let no_from = Statement::Query(Query::new(SetExpr::Select(Select { text: String::new(), projection: vec![SelectItem::Wildcard], from: vec![] })));
    assert_eq!(run(&mut executor, "SELECT *", no_from), unsupported("SELECT *"));
    let two_tables = Statement::Query(Query::new(SetExpr::Select(Select { text: String::new(),
            projection: vec![SelectItem::Wildcard],
            from: vec![
                TableWithJoins { relation: TableFactor::Table { name: name(&["s", "t"]) }, joins: vec![] },
                TableWithJoins { relation: TableFactor::Table { name: name(&["s", "t"]) }, joins: vec![] },
            ],
        })));
    assert_eq!(run(&mut executor, "SELECT * FROM s.t, s.t", two_tables), unsupported("SELECT * FROM s.t, s.t"));
    let joined = Statement::Query(Query::new(SetExpr::Select(Select { text: String::new(),
            projection: vec![SelectItem::Wildcard],
            from: vec![TableWithJoins {
                relation: TableFactor::Table { name: name(&["s", "t"]) },
                joins: vec![" JOIN s.u ON true".to_string()],
            }],
        })));
    assert_eq!(run(&mut executor, "q1", joined), unsupported("q1"));
    let derived = Statement::Query(Query::new(SetExpr::Select(Select { text: String::new(),
            projection: vec![SelectItem::Wildcard],
            from: vec![TableWithJoins {
                relation: TableFactor::Other("(SELECT 1) AS x".to_string()),
                joins: vec![],
            }],
        })));
    assert_eq!(run(&mut executor, "q2", derived), unsupported("q2"));
    let set_operation = Statement::Query(Query::new(SetExpr::Other("a UNION b".to_string())));
    assert_eq!(run(&mut executor, "q3", set_operation), unsupported("q3"));
    let values = Statement::Query(Query::new(SetExpr::Values(vec![vec![number("1")]])));
    assert_eq!(run(&mut executor, "VALUES (1)", values), unsupported("VALUES (1)"));
    let expression = select_items(vec![SelectItem::UnnamedExpr(number("1"))], &["s", "t"]);
    assert_eq!(run(&mut executor, "q4", expression), unsupported("q4"));
    let aliased = select_items(
        vec![SelectItem::UnnamedExpr(ident("a")), SelectItem::Other("b AS c".to_string())],
        &["s", "t"],
    );
    assert_eq!(run(&mut executor, "q5", aliased), unsupported("q5"));
    let computed = select_items(vec![SelectItem::UnnamedExpr(Expr::Other("a + 1".to_string()))], &["s", "t"]);
    assert_eq!(run(&mut executor, "q6", computed), unsupported("q6"));
}

#[test]
fn select_checks_the_schema_before_the_table() {
    let mut executor = executor_with_table();
    assert_eq!(
        run(&mut executor, "q", select(&["a"], &["nope", "t"])),
        vec![Err(QueryError::SchemaDoesNotExist("nope".to_string())), Ok(QueryEvent::QueryComplete)]
    );
    assert_eq!(
        run(&mut executor, "q", select(&["a"], &["s", "nope"])),
        vec![Err(QueryError::TableDoesNotExist("s.nope".to_string())), Ok(QueryEvent::QueryComplete)]
    );
    assert_eq!(
        run(
            &mut executor,
            "q",
            select_items(vec![SelectItem::Other("1 + 1".to_string())], &["nope", "t"])
        ),
        vec![Err(QueryError::SchemaDoesNotExist("nope".to_string())), Ok(QueryEvent::QueryComplete)]
    );
}

#[test]
fn select_projects_by_the_position_of_each_column() {
    let mut executor = executor();
    run(&mut executor, "q", create_schema("s"));
    run(
        &mut executor,
        "q",
        create_table(
            &["s", "p"],
            vec![("a", DataType::Int), ("b", DataType::Int), ("c", DataType::Boolean)],
        ),
    );
    run(
        &mut executor,
        "q",
        insert(
            &["s", "p"],
            &[],
            vec![
                vec![number("1"), number("2"), Expr::Value(Value::Boolean(true))],
                vec![number("4"), number("5"), Expr::Value(Value::Boolean(false))],
                vec![number("7"), Expr::Value(Value::Null), Expr::Value(Value::Boolean(true))],
            ],
        ),
    );
    assert_eq!(
        run(&mut executor, "q", select(&["c", "a", "c", "b"], &["s", "p"])),
        vec![
            Ok(QueryEvent::RecordsSelected(
                description(&[
                    ("c", PostgreSqlType::Bool),
                    ("a", PostgreSqlType::Integer),
                    ("c", PostgreSqlType::Bool),
                    ("b", PostgreSqlType::Integer)
                ]),
                rows(&[&["t", "1", "t", "2"], &["f", "4", "f", "5"], &["t", "7", "t", "NULL"]])
            )),
            Ok(QueryEvent::QueryComplete)
        ]
    );
    assert_eq!(
        run(
            &mut executor,
            "q",
            select_items(vec![SelectItem::Wildcard, SelectItem::UnnamedExpr(ident("a"))], &["s", "p"])
        ),
        vec![
            Ok(QueryEvent::RecordsSelected(
                description(&[
                    ("a", PostgreSqlType::Integer),
                    ("b", PostgreSqlType::Integer),
                    ("c", PostgreSqlType::Bool),
                    ("a", PostgreSqlType::Integer)
                ]),
                rows(&[&["1", "2", "t", "1"], &["4", "5", "f", "4"], &["7", "NULL", "t", "7"]])
            )),
            Ok(QueryEvent::QueryComplete)
        ]
    );
}

#[test]
fn select_from_an_empty_table_and_with_an_empty_projection() {
    let mut executor = executor_with_table();
    assert_eq!(
        run(&mut executor, "q", select_all(&["s", "t"])),
        vec![
            Ok(QueryEvent::RecordsSelected(
                description(&[("a", PostgreSqlType::SmallInt), ("b", PostgreSqlType::VarChar)]),
                vec![]
            )),
            Ok(QueryEvent::QueryComplete)
        ]
    );
    run(&mut executor, "q", insert(&["s", "t"], &[], vec![vec![number("1"), string("x")]]));
    assert_eq!(
        run(&mut executor, "q", select(&[], &["s", "t"])),
        vec![Ok(QueryEvent::RecordsSelected(vec![], vec![vec![]])), Ok(QueryEvent::QueryComplete)]
    );
}

#[test]
fn a_text_that_is_no_statement_is_a_syntax_error() {
    let mut executor = executor();
    assert_eq!(executor.execute("SELEC 1", None), Ok(()));
    assert_eq!(
        executor.flush(),
        vec![
            Err(QueryError::SyntaxError("\"SELEC 1\" can't be parsed".to_string())),
            Ok(QueryEvent::QueryComplete)
        ]
    );
    assert_eq!(executor.execute("say \"hi\"\n", None), Ok(()));
    assert_eq!(
        executor.flush(),
        vec![
            Err(QueryError::SyntaxError("\"say \\\"hi\\\"\\n\" can't be parsed".to_string())),
            Ok(QueryEvent::QueryComplete)
        ]
    );
    assert!(executor.storage().schema_exists("s").is_none());
}

#[test]
fn every_statement_ends_with_one_query_complete() {
    let statements = vec![
        create_schema("s"),
        create_schema("s"),
        create_table(&["s", "t"], vec![("a", DataType::SmallInt)]),
        create_table(&["s", "t"], vec![("a", DataType::SmallInt)]),
        create_table(&["x", "t"], vec![("a", DataType::SmallInt)]),
        create_table(&["s", "u"], vec![("a", DataType::Other("TEXT".to_string()))]),
        insert(&["s", "t"], &[], vec![vec![number("1")]]),
        insert(&["s", "t"], &[], vec![vec![number("1"), number("2")]]),
        insert(&["t"], &[], vec![vec![number("1")]]),
        select(&["a"], &["s", "t"]),
        select(&["b"], &["s", "t"]),
        update(&["s", "t"], vec![("a", number("2"))]),
        delete(&["s", "t"]),
        Statement::StartTransaction("START TRANSACTION".to_string()),
        Statement::SetVariable("SET x = 1".to_string()),
        Statement::Other("COMMIT".to_string()),
        drop_objects(ObjectType::Table, vec![name(&["s", "t"]), name(&["s", "t"])], false),
        drop_objects(ObjectType::Schema, vec![name(&["s"]), name(&["s"])], true),
    ];
    let mut executor = executor();
    for statement in statements {
        let events = run(&mut executor, "sql", statement);
        assert!(events.len() >= 2);
        assert_eq!(events.last(), Some(&Ok(QueryEvent::QueryComplete)));
        let completes = events.iter().filter(|e| **e == Ok(QueryEvent::QueryComplete)).count();
        assert_eq!(completes, 1);
    }
}

#[test]
fn transactions_and_variables_are_acknowledged() {
    let mut executor = executor();
    assert_eq!(
        run(&mut executor, "BEGIN", Statement::StartTransaction("START TRANSACTION".to_string())),
        vec![Ok(QueryEvent::TransactionStarted), Ok(QueryEvent::QueryComplete)]
    );
    assert_eq!(
        run(&mut executor, "SET x = 1", Statement::SetVariable("SET x = 1".to_string())),
        vec![Ok(QueryEvent::VariableSet), Ok(QueryEvent::QueryComplete)]
    );
    assert_eq!(
        run(&mut executor, "COMMIT", Statement::Other("COMMIT".to_string())),
        vec![
            Err(QueryError::FeatureNotSupported("COMMIT".to_string())),
            Ok(QueryEvent::QueryComplete)
        ]
    );
}

#[test]
fn create_schema_is_validated() {
    let mut executor = executor();
    assert_eq!(
        run(&mut executor, "q", create_schema("s")),
        vec![Ok(QueryEvent::SchemaCreated), Ok(QueryEvent::QueryComplete)]
    );
    assert_eq!(
        run(&mut executor, "q", create_schema("s")),
        vec![Err(QueryError::SchemaAlreadyExists("s".to_string())), Ok(QueryEvent::QueryComplete)]
    );
    assert_eq!(
        run(&mut executor, "q", Statement::CreateSchema { schema_name: name(&["a", "b"]) }),
        vec![
            Err(QueryError::SyntaxError(
                "only unqualified schema names are supported, 'a.b'".to_string()
            )),
            Ok(QueryEvent::QueryComplete)
        ]
    );
    assert!(executor.storage().schema_exists("s").is_some());
    assert!(executor.storage().schema_exists("a").is_none());
}

#[test]
fn create_table_is_validated() {
    let mut executor = executor();
    run(&mut executor, "q", create_schema("s"));
    let columns = || vec![("a", DataType::SmallInt)];
    assert_eq!(
        run(&mut executor, "q", create_table(&["t"], columns())),
        vec![
            Err(QueryError::SyntaxError(
                "unsupported table name 't'. All table names must be qualified".to_string()
            )),
            Ok(QueryEvent::QueryComplete)
        ]
    );
    assert_eq!(
        run(&mut executor, "q", create_table(&["d", "s", "t"], columns())),
        vec![
            Err(QueryError::SyntaxError("unable to process table name 'd.s.t'".to_string())),
            Ok(QueryEvent::QueryComplete)
        ]
    );
    assert_eq!(
        run(&mut executor, "q", create_table(&["x", "t"], columns())),
        vec![Err(QueryError::SchemaDoesNotExist("x".to_string())), Ok(QueryEvent::QueryComplete)]
    );
    assert_eq!(
        run(&mut executor, "q", create_table(&["s", "t"], columns())),
        vec![Ok(QueryEvent::TableCreated), Ok(QueryEvent::QueryComplete)]
    );
    assert_eq!(
        run(&mut executor, "q", create_table(&["s", "t"], columns())),
        vec![Err(QueryError::TableAlreadyExists("s.t".to_string())), Ok(QueryEvent::QueryComplete)]
    );
    assert_eq!(executor.storage().table_exists("s", "t"), Some((0, Some(0))));
    assert_eq!(executor.storage().table_exists("s", "u"), Some((0, None)));
    assert_eq!(executor.storage().table_exists("x", "t"), None);
}

#[test]
fn column_types_are_mapped() {
    let mut executor = executor();
    run(&mut executor, "q", create_schema("s"));
    run(
        &mut executor,
        "q",
        create_table(
            &["s", "t"],
            vec![
                ("a", DataType::SmallInt),
                ("b", DataType::Int),
                ("c", DataType::BigInt),
                ("d", DataType::Char(None)),
                ("e", DataType::Char(Some(7))),
                ("f", DataType::Varchar(None)),
                ("g", DataType::Varchar(Some(20))),
                ("h", DataType::Boolean),
                ("i", DataType::Custom("serial".to_string())),
                ("j", DataType::Custom("smallserial".to_string())),
                ("k", DataType::Custom("bigserial".to_string())),
            ],
        ),
    );
    assert_eq!(
        executor.storage().table_columns("s", "t"),
        vec![
            ColumnDefinition::new("a", SqlType::SmallInt(i16::MIN)),
            ColumnDefinition::new("b", SqlType::Integer(i32::MIN)),
            ColumnDefinition::new("c", SqlType::BigInt(i64::MIN)),
            ColumnDefinition::new("d", SqlType::Char(255)),
            ColumnDefinition::new("e", SqlType::Char(7)),
            ColumnDefinition::new("f", SqlType::VarChar(255)),
            ColumnDefinition::new("g", SqlType::VarChar(20)),
            ColumnDefinition::new("h", SqlType::Bool),
            ColumnDefinition::new("i", SqlType::Integer(1)),
            ColumnDefinition::new("j", SqlType::SmallInt(1)),
            ColumnDefinition::new("k", SqlType::BigInt(1)),
        ]
    );
}

#[test]
fn column_types_without_a_mapping_are_rejected() {
    let mut executor = executor();
    run(&mut executor, "q", create_schema("s"));
    assert_eq!(
        run(
            &mut executor,
            "q",
            create_table(
                &["s", "t"],
                vec![
                    ("a", DataType::SmallInt),
                    ("b", DataType::Other("TEXT".to_string())),
                    ("c", DataType::Custom("money".to_string()))
                ]
            )
        ),
        vec![
            Err(QueryError::FeatureNotSupported("TEXT type is not supported".to_string())),
            Ok(QueryEvent::QueryComplete)
        ]
    );
    assert_eq!(
        run(
            &mut executor,
            "q",
            create_table(&["s", "t"], vec![("c", DataType::Custom("money".to_string()))])
        ),
        vec![
            Err(QueryError::FeatureNotSupported("money type is not supported".to_string())),
            Ok(QueryEvent::QueryComplete)
        ]
    );
    assert_eq!(executor.storage().table_exists("s", "t"), Some((0, None)));
}

#[test]
fn drop_stops_at_the_first_name_that_addresses_nothing() {
    let mut executor = executor_with_table();
    assert_eq!(
        run(
            &mut executor,
            "q",
            drop_objects(ObjectType::Table, vec![name(&["s", "t"]), name(&["s", "u"])], false)
        ),
        vec![Err(QueryError::TableDoesNotExist("s.u".to_string())), Ok(QueryEvent::QueryComplete)]
    );
    assert_eq!(executor.storage().table_exists("s", "t"), Some((0, Some(0))));
    assert_eq!(
        run(
            &mut executor,
            "q",
            drop_objects(ObjectType::Table, vec![name(&["x", "t"]), name(&["t"])], false)
        ),
        vec![Err(QueryError::SchemaDoesNotExist("x".to_string())), Ok(QueryEvent::QueryComplete)]
    );
    assert_eq!(
        run(&mut executor, "q", drop_objects(ObjectType::Table, vec![name(&["t"])], false)),
        vec![
            Err(QueryError::SyntaxError(
                "unsupported table name 't'. All table names must be qualified".to_string()
            )),
            Ok(QueryEvent::QueryComplete)
        ]
    );
    assert_eq!(
        run(
            &mut executor,
            "q",
            drop_objects(ObjectType::Schema, vec![name(&["s"]), name(&["x"])], false)
        ),
        vec![Err(QueryError::SchemaDoesNotExist("x".to_string())), Ok(QueryEvent::QueryComplete)]
    );
    assert_eq!(
        run(&mut executor, "q", drop_objects(ObjectType::Schema, vec![name(&["s", "t"])], false)),
        vec![
            Err(QueryError::SyntaxError(
                "only unqualified schema names are supported, 's.t'".to_string()
            )),
            Ok(QueryEvent::QueryComplete)
        ]
    );
    assert!(executor.storage().schema_exists("s").is_some());
}

#[test]
fn drop_removes_tables_and_schemas_in_order() {
    let mut executor = executor_with_table();
    run(&mut executor, "q", create_table(&["s", "u"], vec![("a", DataType::Int)]));
    run(&mut executor, "q", create_schema("r"));
    assert_eq!(
        run(
            &mut executor,
            "q",
            drop_objects(ObjectType::Table, vec![name(&["s", "u"]), name(&["s", "t"])], false)
        ),
        vec![
            Ok(QueryEvent::TableDropped),
            Ok(QueryEvent::TableDropped),
            Ok(QueryEvent::QueryComplete)
        ]
    );
    assert_eq!(executor.storage().table_exists("s", "t"), Some((0, None)));
    assert_eq!(
        run(&mut executor, "q", drop_objects(ObjectType::Table, vec![], false)),
        vec![Ok(QueryEvent::QueryComplete)]
    );
    assert_eq!(
        run(
            &mut executor,
            "q",
            drop_objects(ObjectType::Schema, vec![name(&["r"]), name(&["s"])], true)
        ),
        vec![
            Ok(QueryEvent::SchemaDropped),
            Ok(QueryEvent::SchemaDropped),
            Ok(QueryEvent::QueryComplete)
        ]
    );
    assert!(executor.storage().schema_exists("s").is_none());
    assert!(executor.storage().schema_exists("r").is_none());
}

#[test]
fn drop_of_a_name_given_twice_reports_the_second() {
    let mut executor = executor_with_table();
    assert_eq!(
        run(
            &mut executor,
            "q",
            drop_objects(ObjectType::Table, vec![name(&["s", "t"]), name(&["s", "t"])], false)
        ),
        vec![
            Ok(QueryEvent::TableDropped),
            Err(QueryError::TableDoesNotExist("s.t".to_string())),
            Ok(QueryEvent::QueryComplete)
        ]
    );
    assert_eq!(
        run(
            &mut executor,
            "q",
            drop_objects(ObjectType::Schema, vec![name(&["s"]), name(&["s"])], false)
        ),
        vec![
            Ok(QueryEvent::SchemaDropped),
            Err(QueryError::SchemaDoesNotExist("s".to_string())),
            Ok(QueryEvent::QueryComplete)
        ]
    );
}

#[test]
fn a_dropped_schema_takes_its_tables_along() {
    let mut executor = executor_with_table();
    run(&mut executor, "q", insert(&["s", "t"], &[], vec![vec![number("1"), string("x")]]));
    run(&mut executor, "q", drop_objects(ObjectType::Schema, vec![name(&["s"])], false));
    run(&mut executor, "q", create_schema("s"));
    assert_eq!(executor.storage().table_exists("s", "t"), Some((0, None)));
    assert_eq!(executor.storage().full_scan("s", "t"), Vec::<Vec<String>>::new());
}

#[test]
fn insert_is_validated() {
    let mut executor = executor_with_table();
    let one = |error: QueryError| vec![Err(error), Ok(QueryEvent::QueryComplete)];
    assert_eq!(
        run(&mut executor, "q", insert(&["t"], &[], vec![])),
        one(QueryError::SyntaxError(
            "unsupported table name 't'. All table names must be qualified".to_string()
        ))
    );
    assert_eq!(
        run(&mut executor, "q", insert(&["x", "t"], &[], vec![])),
        one(QueryError::SchemaDoesNotExist("x".to_string()))
    );
    assert_eq!(
        run(&mut executor, "q", insert(&["s", "x"], &[], vec![])),
        one(QueryError::TableDoesNotExist("s.x".to_string()))
    );
    assert_eq!(
        run(
            &mut executor,
            "INSERT INTO s.t SELECT * FROM s.t",
            Statement::Insert {
                table_name: name(&["s", "t"]),
                columns: vec![],
                source: Query::new(SetExpr::Select(Select { text: String::new(),
                        projection: vec![SelectItem::Wildcard],
                        from: from_table(&["s", "t"])
                    }))
            }
        ),
        one(QueryError::FeatureNotSupported("INSERT INTO s.t SELECT * FROM s.t".to_string()))
    );
    assert_eq!(
        run(&mut executor, "q", insert(&["s", "t"], &["b", "z", "a", "y"], vec![])),
        one(QueryError::ColumnDoesNotExist(vec!["z".to_string(), "y".to_string()]))
    );
    assert_eq!(
        run(
            &mut executor,
            "q",
            insert(
                &["s", "t"],
                &[],
                vec![vec![number("1"), string("x")], vec![number("1"), string("x"), number("3")]]
            )
        ),
        one(QueryError::SyntaxError("INSERT has more expressions than target columns".to_string()))
    );
    assert_eq!(
        run(&mut executor, "q", insert(&["s", "t"], &["a"], vec![vec![number("1"), string("x")]])),
        one(QueryError::SyntaxError("INSERT has more expressions than target columns".to_string()))
    );
    assert_eq!(
        run(
            &mut executor,
            "INSERT INTO s.t VALUES (1, 'x'), ($1, 'y')",
            insert(
                &["s", "t"],
                &[],
                vec![vec![number("1"), string("x")], vec![ident("$1"), string("y")]]
            )
        ),
        one(QueryError::FeatureNotSupported("INSERT INTO s.t VALUES (1, 'x'), ($1, 'y')".to_string()))
    );
    assert_eq!(
        run(
            &mut executor,
            "q7",
            insert(&["s", "t"], &[], vec![vec![Expr::Other("1 + 1".to_string())]])
        ),
        one(QueryError::FeatureNotSupported("q7".to_string()))
    );
    assert_eq!(executor.storage().full_scan("s", "t"), Vec::<Vec<String>>::new());
}

#[test]
fn insert_places_each_value_in_its_column() {
    let mut executor = executor_with_table();
    assert_eq!(
        run(
            &mut executor,
            "q",
            insert(
                &["s", "t"],
                &[],
                vec![vec![number("1"), string("x")], vec![number("2")], vec![]]
            )
        ),
        vec![Ok(QueryEvent::RecordsInserted(3)), Ok(QueryEvent::QueryComplete)]
    );
    assert_eq!(
        run(
            &mut executor,
            "q",
            insert(
                &["s", "t"],
                &["b", "a"],
                vec![vec![string("y"), number("3")], vec![string("z")]]
            )
        ),
        vec![Ok(QueryEvent::RecordsInserted(2)), Ok(QueryEvent::QueryComplete)]
    );
    assert_eq!(
        run(&mut executor, "q", insert(&["s", "t"], &["b"], vec![])),
        vec![Ok(QueryEvent::RecordsInserted(0)), Ok(QueryEvent::QueryComplete)]
    );
    assert_eq!(
        executor.storage().full_scan("s", "t"),
        rows(&[&["1", "x"], &["2", "NULL"], &["NULL", "NULL"], &["3", "y"], &["NULL", "z"]])
    );
}

#[test]
fn update_and_delete_change_every_row() {
    let mut executor = executor_with_table();
    run(
        &mut executor,
        "q",
        insert(&["s", "t"], &[], vec![vec![number("1"), string("x")], vec![number("2"), string("y")]]),
    );
    assert_eq!(
        run(
            &mut executor,
            "q",
            update(&["s", "t"], vec![("b", string("w")), ("a", number("9")), ("b", string("v"))])
        ),
        vec![Ok(QueryEvent::RecordsUpdated(2)), Ok(QueryEvent::QueryComplete)]
    );
    assert_eq!(executor.storage().full_scan("s", "t"), rows(&[&["9", "v"], &["9", "v"]]));
    assert_eq!(
        run(&mut executor, "q", delete(&["s", "t"])),
        vec![Ok(QueryEvent::RecordsDeleted(2)), Ok(QueryEvent::QueryComplete)]
    );
    assert_eq!(executor.storage().full_scan("s", "t"), Vec::<Vec<String>>::new());
    assert_eq!(
        run(&mut executor, "q", delete(&["s", "t"])),
        vec![Ok(QueryEvent::RecordsDeleted(0)), Ok(QueryEvent::QueryComplete)]
    );
    assert_eq!(
        run(&mut executor, "q", update(&["s", "t"], vec![("a", number("9"))])),
        vec![Ok(QueryEvent::RecordsUpdated(0)), Ok(QueryEvent::QueryComplete)]
    );
}

#[test]
fn update_and_delete_are_validated() {
    let mut executor = executor_with_table();
    run(&mut executor, "q", insert(&["s", "t"], &[], vec![vec![number("1"), string("x")]]));
    let one = |error: QueryError| vec![Err(error), Ok(QueryEvent::QueryComplete)];
    assert_eq!(
        run(&mut executor, "q", update(&["t"], vec![])),
        one(QueryError::SyntaxError(
            "unsupported table name 't'. All table names must be qualified".to_string()
        ))
    );
    assert_eq!(
        run(&mut executor, "q", update(&["x", "t"], vec![])),
        one(QueryError::SchemaDoesNotExist("x".to_string()))
    );
    assert_eq!(
        run(&mut executor, "q", update(&["s", "x"], vec![])),
        one(QueryError::TableDoesNotExist("s.x".to_string()))
    );
    assert_eq!(
        run(&mut executor, "q", update(&["s", "t"], vec![("z", number("1")), ("a", ident("b"))])),
        one(QueryError::ColumnDoesNotExist(vec!["z".to_string()]))
    );
    assert_eq!(
        run(&mut executor, "UPDATE s.t SET a = b", update(&["s", "t"], vec![("a", ident("b"))])),
        one(QueryError::FeatureNotSupported("UPDATE s.t SET a = b".to_string()))
    );
    assert_eq!(
        run(&mut executor, "q", delete(&["d", "s", "t"])),
        one(QueryError::SyntaxError("unable to process table name 'd.s.t'".to_string()))
    );
    assert_eq!(
        run(&mut executor, "q", delete(&["x", "t"])),
        one(QueryError::SchemaDoesNotExist("x".to_string()))
    );
    assert_eq!(
        run(&mut executor, "q", delete(&["s", "x"])),
        one(QueryError::TableDoesNotExist("s.x".to_string()))
    );
    assert_eq!(executor.storage().full_scan("s", "t"), rows(&[&["1", "x"]]));
}

#[test]
fn prepared_statement_is_described() {
    let mut executor = executor_with_table();
    assert_eq!(
        executor.parse_prepared_statement(
            "s1",
            "SELECT a FROM s.t",
            Some(select(&["a"], &["s", "t"])),
            &[]
        ),
        Ok(())
    );
    assert_eq!(executor.flush(), vec![Ok(QueryEvent::ParseComplete)]);
    assert_eq!(executor.describe_prepared_statement("s1"), Ok(()));
    assert_eq!(
        executor.flush(),
        vec![Ok(QueryEvent::PreparedStatementDescribed(
            vec![],
            description(&[("a", PostgreSqlType::SmallInt)])
        ))]
    );
}

#[test]
fn describe_sends_what_parse_stored() {
    let mut executor = executor_with_table();
    let types = [PostgreSqlType::SmallInt, PostgreSqlType::VarChar];
    executor
        .parse_prepared_statement(
            "ins",
            "INSERT INTO s.t VALUES ($1, $2)",
            Some(insert(&["s", "t"], &[], vec![vec![ident("$1"), ident("$2")]])),
            &types,
        )
        .unwrap();
    executor
        .parse_prepared_statement("sel", "SELECT * FROM s.t", Some(select_all(&["s", "t"])), &[])
        .unwrap();
    executor.flush();
    run(&mut executor, "q", insert(&["s", "t"], &[], vec![vec![number("1"), string("x")]]));
    executor.describe_prepared_statement("ins").unwrap();
    executor.describe_prepared_statement("sel").unwrap();
    executor.describe_prepared_statement("nope").unwrap();
    assert_eq!(
        executor.flush(),
        vec![
            Ok(QueryEvent::PreparedStatementDescribed(types.to_vec(), vec![])),
            Ok(QueryEvent::PreparedStatementDescribed(
                vec![],
                description(&[("a", PostgreSqlType::SmallInt), ("b", PostgreSqlType::VarChar)])
            )),
            Err(QueryError::PreparedStatementDoesNotExist("nope".to_string())),
        ]
    );
}

#[test]
fn parse_under_a_name_again_replaces_the_statement() {
    let mut executor = executor_with_table();
    executor
        .parse_prepared_statement("p", "q", Some(select(&["a"], &["s", "t"])), &[])
        .unwrap();
    executor
        .parse_prepared_statement(
            "p",
            "q",
            Some(select(&["b", "a"], &["s", "t"])),
            &[PostgreSqlType::Bool],
        )
        .unwrap();
    executor.describe_prepared_statement("p").unwrap();
    assert_eq!(
        executor.flush(),
        vec![
            Ok(QueryEvent::ParseComplete),
            Ok(QueryEvent::ParseComplete),
            Ok(QueryEvent::PreparedStatementDescribed(
                vec![PostgreSqlType::Bool],
                description(&[("b", PostgreSqlType::VarChar), ("a", PostgreSqlType::SmallInt)])
            )),
        ]
    );
}

#[test]
fn parse_of_a_text_that_is_no_statement_stores_nothing() {
    let mut executor = executor();
    assert_eq!(executor.parse_prepared_statement("p", "SELEC", None, &[]), Ok(()));
    executor.describe_prepared_statement("p").unwrap();
    assert_eq!(
        executor.flush(),
        vec![
            Err(QueryError::SyntaxError("\"SELEC\" can't be parsed".to_string())),
            Err(QueryError::PreparedStatementDoesNotExist("p".to_string())),
        ]
    );
}

#[test]
fn parse_of_a_query_that_cannot_be_described_fails() {
    let mut executor = executor_with_table();
    let cases: Vec<(Statement, QueryError, &str)> = vec![
        (
            select(&["c", "a", "d"], &["s", "t"]),
            QueryError::ColumnDoesNotExist(vec!["c".to_string(), "d".to_string()]),
            "Column Does Not Exist",
        ),
        (
            select(&["a"], &["x", "t"]),
            QueryError::SchemaDoesNotExist("x".to_string()),
            "Schema Does Not Exist",
        ),
        (
            select(&["a"], &["s", "x"]),
            QueryError::TableDoesNotExist("s.x".to_string()),
            "Table Does Not Exist",
        ),
        (
            select(&["a"], &["t"]),
            QueryError::FeatureNotSupported("the text".to_string()),
            "Feature Not Supported",
        ),
    ];
    for (statement, error, failure) in cases {
        assert_eq!(
            executor.parse_prepared_statement("p", "the text", Some(statement), &[]),
            Err(SystemError::RuntimeCheckFailure(failure.to_string()))
        );
        assert_eq!(executor.flush(), vec![Err(error)]);
    }
    executor.describe_prepared_statement("p").unwrap();
    assert_eq!(
        executor.flush(),
        vec![Err(QueryError::PreparedStatementDoesNotExist("p".to_string()))]
    );
}

#[test]
fn bind_with_the_wrong_number_of_parameters() {
    let mut executor = executor_with_table();
    executor
        .parse_prepared_statement("s1", "SELECT a FROM s.t", Some(select(&["a"], &["s", "t"])), &[])
        .unwrap();
    executor.flush();
    assert_eq!(executor.bind_prepared_statement_to_portal("first", "s1", &[], &[None], &[]), Ok(()));
    assert_eq!(
        executor.flush(),
        vec![Err(QueryError::ProtocolViolation(
            "Bind message supplies 1 parameters, but prepared statement \"s1\" requires 0"
                .to_string()
        ))]
    );
    executor.execute_portal("first", 0).unwrap();
    assert_eq!(executor.flush(), vec![Err(QueryError::PortalDoesNotExist("first".to_string()))]);
}

#[test]
fn bind_pads_a_single_format_to_every_parameter() {
    let mut executor = executor();
    run(&mut executor, "q", create_schema("s"));
    run(
        &mut executor,
        "q",
        create_table(
            &["s", "n"],
            vec![("a", DataType::Int), ("b", DataType::Int), ("c", DataType::Int)],
        ),
    );
    executor
        .parse_prepared_statement(
            "s1",
            "INSERT INTO s.n VALUES ($1, $2, $3)",
            Some(insert(&["s", "n"], &[], vec![vec![ident("$1"), ident("$2"), ident("$3")]])),
            &[PostgreSqlType::Integer, PostgreSqlType::Integer, PostgreSqlType::Integer],
        )
        .unwrap();
    executor.flush();
    assert_eq!(
        executor.bind_prepared_statement_to_portal(
            "first",
            "s1",
            &[PostgreSqlFormat::Binary],
            &[Some(vec![0, 0, 0, 1]), Some(vec![0, 0, 1, 0]), Some(vec![0xff, 0xff, 0xff, 0xff])],
            &[]
        ),
        Ok(())
    );
    assert_eq!(executor.flush(), vec![Ok(QueryEvent::BindComplete)]);
    assert_eq!(executor.execute_portal("first", 0), Ok(()));
    assert_eq!(executor.flush(), vec![Ok(QueryEvent::RecordsInserted(1))]);
    assert_eq!(executor.storage().full_scan("s", "n"), rows(&[&["1", "256", "-1"]]));
}

#[test]
fn bind_reports_each_kind_of_error() {
    let mut executor = executor_with_table();
    executor
        .parse_prepared_statement(
            "ins",
            "q",
            Some(insert(&["s", "t"], &[], vec![vec![ident("$1"), ident("$2")]])),
            &[PostgreSqlType::SmallInt, PostgreSqlType::VarChar],
        )
        .unwrap();
    executor
        .parse_prepared_statement(
            "far",
            "q",
            Some(insert(&["s", "t"], &[], vec![vec![ident("$1"), ident("$3")]])),
            &[PostgreSqlType::SmallInt, PostgreSqlType::VarChar],
        )
        .unwrap();
    executor
        .parse_prepared_statement("sel", "q", Some(select(&["a"], &["s", "t"])), &[])
        .unwrap();
    executor
        .parse_prepared_statement(
            "typed",
            "q",
            Some(select(&["a"], &["s", "t"])),
            &[PostgreSqlType::Bool],
        )
        .unwrap();
    executor.flush();
    let text = PostgreSqlFormat::Text;
    let binary = PostgreSqlFormat::Binary;
    let two = [Some(b"1".to_vec()), Some(b"x".to_vec())];

    executor.bind_prepared_statement_to_portal("p", "nope", &[], &[], &[]).unwrap();
    assert_eq!(
        executor.flush(),
        vec![Err(QueryError::PreparedStatementDoesNotExist("nope".to_string()))]
    );
    executor.bind_prepared_statement_to_portal("p", "ins", &[], &[None, None, None], &[]).unwrap();
    assert_eq!(
        executor.flush(),
        vec![Err(QueryError::ProtocolViolation(
            "Bind message supplies 3 parameters, but prepared statement \"ins\" requires 2"
                .to_string()
        ))]
    );
    executor
        .bind_prepared_statement_to_portal("p", "ins", &[text, text, binary], &two, &[])
        .unwrap();
    assert_eq!(
        executor.flush(),
        vec![Err(QueryError::ProtocolViolation(
            "expected 3 field format specifiers, but got 2".to_string()
        ))]
    );
    executor.bind_prepared_statement_to_portal("p", "ins", &[binary], &two, &[]).unwrap();
    assert_eq!(
        executor.flush(),
        vec![Err(QueryError::InvalidParameterValue("invalid input for type smallint".to_string()))]
    );
    executor
        .bind_prepared_statement_to_portal(
            "p",
            "ins",
            &[text, binary],
            &[Some(b"1".to_vec()), Some(vec![0xff])],
            &[],
        )
        .unwrap();
    assert_eq!(
        executor.flush(),
        vec![Err(QueryError::InvalidParameterValue("invalid input for type varchar".to_string()))]
    );
    executor.bind_prepared_statement_to_portal("p", "far", &[], &two, &[]).unwrap();
    assert_eq!(
        executor.flush(),
        vec![Err(QueryError::InvalidParameterValue("there is no parameter $3".to_string()))]
    );
    executor
        .bind_prepared_statement_to_portal("p", "typed", &[], &[Some(b"t".to_vec())], &[])
        .unwrap();
    assert_eq!(
        executor.flush(),
        vec![Err(QueryError::FeatureNotSupported(
            "parameters cannot be bound to this statement".to_string()
        ))]
    );
    executor.bind_prepared_statement_to_portal("p", "sel", &[], &[], &[text, binary]).unwrap();
    assert_eq!(
        executor.flush(),
        vec![Err(QueryError::ProtocolViolation(
            "expected 2 field format specifiers, but got 1".to_string()
        ))]
    );
    executor.execute_portal("p", 0).unwrap();
    assert_eq!(executor.flush(), vec![Err(QueryError::PortalDoesNotExist("p".to_string()))]);
    executor.bind_prepared_statement_to_portal("p", "sel", &[binary], &[], &[binary]).unwrap();
    assert_eq!(executor.flush(), vec![Ok(QueryEvent::BindComplete)]);
}

#[test]
fn bind_replaces_every_placeholder_by_its_value() {
    let mut executor = executor_with_table();
    executor
        .parse_prepared_statement(
            "ins",
            "q",
            Some(insert(
                &["s", "t"],
                &[],
                vec![vec![ident("$1"), ident("$2")], vec![ident("$1"), string("k")], vec![
                    number("5"),
                    ident("$02"),
                ]],
            )),
            &[PostgreSqlType::SmallInt, PostgreSqlType::VarChar],
        )
        .unwrap();
    executor
        .bind_prepared_statement_to_portal(
            "p",
            "ins",
            &[],
            &[Some(b"-7".to_vec()), Some(b"it's".to_vec())],
            &[],
        )
        .unwrap();
    executor.execute_portal("p", 0).unwrap();
    executor
        .bind_prepared_statement_to_portal("p", "ins", &[], &[None, Some(b"".to_vec())], &[])
        .unwrap();
    executor.execute_portal("p", 0).unwrap();
    executor.execute_portal("p", 0).unwrap();
    assert_eq!(
        executor.flush(),
        vec![
            Ok(QueryEvent::ParseComplete),
            Ok(QueryEvent::BindComplete),
            Ok(QueryEvent::RecordsInserted(3)),
            Ok(QueryEvent::BindComplete),
            Ok(QueryEvent::RecordsInserted(3)),
            Ok(QueryEvent::RecordsInserted(3)),
        ]
    );
    assert_eq!(
        executor.storage().full_scan("s", "t"),
        rows(&[
            &["-7", "it's"],
            &["-7", "k"],
            &["5", "it's"],
            &["NULL", ""],
            &["NULL", "k"],
            &["5", ""],
            &["NULL", ""],
            &["NULL", "k"],
            &["5", ""],
        ])
    );
}

#[test]
fn negative_numbers_are_stored_and_bound() {
    let mut executor = executor_with_table();
    run(
        &mut executor,
        "q",
        insert(&["s", "t"], &[], vec![vec![Expr::Negative("3".to_string()), string("x")]]),
    );
    executor
        .parse_prepared_statement(
            "ins",
            "q",
            Some(insert(&["s", "t"], &["a"], vec![vec![ident("$1")], vec![ident("$2")], vec![
                ident("$3"),
            ]])),
            &[PostgreSqlType::SmallInt, PostgreSqlType::Integer, PostgreSqlType::BigInt],
        )
        .unwrap();
    executor
        .bind_prepared_statement_to_portal(
            "p",
            "ins",
            &[],
            &[
                Some(b"-32768".to_vec()),
                Some(b"0".to_vec()),
                Some(b"-9223372036854775808".to_vec()),
            ],
            &[],
        )
        .unwrap();
    let bound = executor.session().get_portal("p").unwrap().stmt().clone();
    assert_eq!(
        bound,
        insert(&["s", "t"], &["a"], vec![
            vec![Expr::Negative("32768".to_string())],
            vec![number("0")],
            vec![Expr::Negative("9223372036854775808".to_string())],
        ])
    );
    assert_eq!(
        bound.to_sql(),
        "INSERT INTO s.t (a) VALUES (- 32768), (0), (- 9223372036854775808)"
    );
    executor.execute_portal("p", 0).unwrap();
    executor.flush();
    assert_eq!(
        executor.storage().full_scan("s", "t"),
        rows(&[
            &["-3", "x"],
            &["-32768", "NULL"],
            &["0", "NULL"],
            &["-9223372036854775808", "NULL"]
        ])
    );
}

#[test]
fn bind_replaces_placeholders_in_an_update() {
    let mut executor = executor_with_table();
    run(&mut executor, "q", insert(&["s", "t"], &[], vec![vec![number("1"), string("x")]]));
    executor
        .parse_prepared_statement(
            "upd",
            "q",
            Some(update(&["s", "t"], vec![("b", ident("$2")), ("a", ident("$1"))])),
            &[PostgreSqlType::BigInt, PostgreSqlType::Bool],
        )
        .unwrap();
    executor
        .bind_prepared_statement_to_portal(
            "p",
            "upd",
            &[PostgreSqlFormat::Binary, PostgreSqlFormat::Text],
            &[Some(vec![0, 0, 0, 0, 0, 0, 0, 42]), Some(b"true".to_vec())],
            &[],
        )
        .unwrap();
    executor.execute_portal("p", 10).unwrap();
    assert_eq!(
        executor.flush(),
        vec![
            Ok(QueryEvent::ParseComplete),
            Ok(QueryEvent::BindComplete),
            Ok(QueryEvent::RecordsUpdated(1)),
        ]
    );
    assert_eq!(executor.storage().full_scan("s", "t"), rows(&[&["42", "t"]]));
}

#[test]
fn a_portal_sends_what_its_statement_sends_as_a_simple_query() {
    let statements: Vec<(Statement, Vec<PostgreSqlType>, Vec<Option<Vec<u8>>>)> = vec![
        (select(&["b", "a"], &["s", "t"]), vec![], vec![]),
        (select(&["nope"], &["s", "t"]), vec![], vec![]),
        (select_all(&["t"]), vec![], vec![]),
        (
            insert(&["s", "t"], &["a"], vec![vec![ident("$1")]]),
            vec![PostgreSqlType::SmallInt],
            vec![Some(b"12".to_vec())],
        ),
        (
            insert(&["s", "t"], &[], vec![vec![ident("$1"), ident("b")]]),
            vec![PostgreSqlType::SmallInt],
            vec![Some(b"12".to_vec())],
        ),
        (update(&["s", "t"], vec![("b", ident("$1"))]), vec![PostgreSqlType::VarChar], vec![None]),
        (delete(&["s", "t"]), vec![], vec![]),
        (create_schema("other"), vec![], vec![]),
        (Statement::Other("COMMIT".to_string()), vec![], vec![]),
    ];
    for (statement, types, params) in statements {
        let mut through_portal = executor_with_table();
        let mut direct = executor_with_table();
        for executor in [&mut through_portal, &mut direct] {
            run(executor, "q", insert(&["s", "t"], &[], vec![vec![number("1"), string("x")]]));
        }
        let described = matches!(statement, Statement::Query(_));
        let parsed = through_portal.parse_prepared_statement("st", "text", Some(statement), &types);
        if parsed.is_err() {
            assert!(described);
            continue;
        }
        through_portal.bind_prepared_statement_to_portal("po", "st", &[], &params, &[]).unwrap();
        assert_eq!(
            through_portal.flush(),
            vec![Ok(QueryEvent::ParseComplete), Ok(QueryEvent::BindComplete)]
        );
        let bound = through_portal_statement(&mut through_portal);
        through_portal.execute_portal("po", 0).unwrap();
        let mut from_portal = through_portal.flush();
        from_portal.push(Ok(QueryEvent::QueryComplete));
        let sql = bound.to_sql();
        direct.execute(&sql, Some(bound)).unwrap();
        assert_eq!(from_portal, direct.flush());
        assert_eq!(
            through_portal.storage().full_scan("s", "t"),
            direct.storage().full_scan("s", "t")
        );
    }
}

/// The statement that the portal `po` of the session holds.
fn through_portal_statement(executor: &mut QueryExecutor) -> Statement {
    executor.session().get_portal("po").unwrap().stmt().clone()
}

#[test]
fn bind_under_a_name_again_replaces_the_portal() {
    let mut executor = executor_with_table();
    executor.parse_prepared_statement("a", "q", Some(create_schema("one")), &[]).unwrap();
    executor.parse_prepared_statement("b", "q", Some(create_schema("two")), &[]).unwrap();
    executor.bind_prepared_statement_to_portal("p", "a", &[], &[], &[]).unwrap();
    executor.bind_prepared_statement_to_portal("p", "b", &[], &[], &[]).unwrap();
    executor.execute_portal("p", 0).unwrap();
    executor.execute_portal("p", 0).unwrap();
    assert_eq!(
        executor.flush(),
        vec![
            Ok(QueryEvent::ParseComplete),
            Ok(QueryEvent::ParseComplete),
            Ok(QueryEvent::BindComplete),
            Ok(QueryEvent::BindComplete),
            Ok(QueryEvent::SchemaCreated),
            Err(QueryError::SchemaAlreadyExists("two".to_string())),
        ]
    );
    assert!(executor.storage().schema_exists("one").is_none());
}

#[test]
fn a_portal_keeps_its_statement_when_the_prepared_statement_is_replaced() {
    let mut executor = executor_with_table();
    executor.parse_prepared_statement("a", "q", Some(create_schema("one")), &[]).unwrap();
    executor.bind_prepared_statement_to_portal("p", "a", &[], &[], &[]).unwrap();
    executor.parse_prepared_statement("a", "q", Some(create_schema("two")), &[]).unwrap();
    executor.execute_portal("p", 0).unwrap();
    executor.flush();
    assert!(executor.storage().schema_exists("one").is_some());
    assert!(executor.storage().schema_exists("two").is_none());
}

#[test]
fn flush_hands_out_the_messages_in_order_and_keeps_none() {
    let mut executor = executor();
    assert_eq!(executor.flush(), vec![]);
    executor.execute("a", Some(create_schema("a"))).unwrap();
    executor.execute("b", Some(create_schema("a"))).unwrap();
    assert_eq!(
        executor.flush(),
        vec![
            Ok(QueryEvent::SchemaCreated),
            Ok(QueryEvent::QueryComplete),
            Err(QueryError::SchemaAlreadyExists("a".to_string())),
            Ok(QueryEvent::QueryComplete),
        ]
    );
    assert_eq!(executor.flush(), vec![]);
}

#[test]
fn sender_keeps_messages_until_they_are_flushed() {
    let mut sender = Sender::new();
    assert_eq!(sender.pending(), 0);
    sender.send(Ok(QueryEvent::BindComplete));
    sender.send(Err(QueryError::PortalDoesNotExist("p".to_string())));
    assert_eq!(sender.pending(), 2);
    assert_eq!(
        sender.flush(),
        vec![Ok(QueryEvent::BindComplete), Err(QueryError::PortalDoesNotExist("p".to_string()))]
    );
    assert_eq!(sender.pending(), 0);
    assert_eq!(sender.flush(), vec![]);
}

#[test]
fn statements_are_written_back_as_sql() {
    let written = Statement::Query(Query::new(SetExpr::Select(Select {
        projection: vec![SelectItem::UnnamedExpr(ident("b"))],
        from: from_table(&["s", "t"]),
        text: "SELECT DISTINCT b FROM s.t WHERE a = 1".to_string(),
    })));
    assert_eq!(written.to_sql(), "SELECT DISTINCT b FROM s.t WHERE a = 1");
    let decorated = Statement::Query(Query {
        ctes: vec!["x AS (SELECT 1)".to_string(), "y AS (SELECT 2)".to_string()],
        body: SetExpr::Other("SELECT 1 UNION SELECT 2".to_string()),
        order_by: vec!["a".to_string(), "b DESC".to_string()],
        limit: Some("10".to_string()),
        offset: Some("OFFSET 5 ROWS".to_string()),
        fetch: Some("FETCH FIRST 2 ROWS ONLY".to_string()),
    });
    assert_eq!(
        decorated.to_sql(),
        "WITH x AS (SELECT 1), y AS (SELECT 2) SELECT 1 UNION SELECT 2 ORDER BY a, b DESC \
         LIMIT 10 OFFSET 5 ROWS FETCH FIRST 2 ROWS ONLY"
    );
    assert_eq!(
        insert(
            &["s", "t"],
            &[],
            vec![vec![number("1"), string("it's")], vec![
                Expr::Value(Value::Null),
                Expr::Value(Value::Boolean(true))
            ]]
        )
        .to_sql(),
        "INSERT INTO s.t VALUES (1, 'it''s'), (NULL, true)"
    );
    assert_eq!(
        insert(&["s", "t"], &["a", "b"], vec![vec![ident("$1"), Expr::Other("1 + 2".to_string())]])
            .to_sql(),
        "INSERT INTO s.t (a, b) VALUES ($1, 1 + 2)"
    );
    let quoted = |value: &str, style: QuoteStyle| Ident {
        value: value.to_string(),
        quote_style: Some(style),
    };
    assert_eq!(
        Statement::Insert {
            table_name: name(&["\"S\"", "t"]),
            columns: vec![
                quoted("a b", QuoteStyle::Double),
                quoted("c", QuoteStyle::Backtick),
                quoted("d", QuoteStyle::Bracket),
                quoted("e", QuoteStyle::Single),
                Ident::new("f"),
            ],
            source: Query::new(SetExpr::Values(vec![vec![
                Expr::Identifier(quoted("x", QuoteStyle::Double)),
                number("2"),
            ]])),
        }
        .to_sql(),
        "INSERT INTO \"S\".t (\"a b\", `c`, [d], 'e', f) VALUES (\"x\", 2)"
    );
    assert_eq!(
        Statement::Update {
            table_name: name(&["s", "t"]),
            assignments: vec![
                Assignment { id: Ident::new("a"), value: number("1") },
                Assignment {
                    id: quoted("b", QuoteStyle::Double),
                    value: Expr::Value(Value::Boolean(false))
                },
            ],
            selection: Some("a > 3".to_string()),
        }
        .to_sql(),
        "UPDATE s.t SET a = 1, \"b\" = false WHERE a > 3"
    );
    assert_eq!(update(&["s", "t"], vec![]).to_sql(), "UPDATE s.t");
    assert_eq!(delete(&["s", "t"]).to_sql(), "DELETE FROM s.t");
    assert_eq!(
        Statement::Delete { table_name: name(&["s", "t"]), selection: Some("a = 1".to_string()) }
            .to_sql(),
        "DELETE FROM s.t WHERE a = 1"
    );
    assert_eq!(create_schema("s").to_sql(), "CREATE SCHEMA s");
    assert_eq!(
        Statement::CreateTable {
            name: name(&["s", "t"]),
            columns: vec![],
            text: "CREATE TABLE s.t (a int NOT NULL)".to_string(),
        }
        .to_sql(),
        "CREATE TABLE s.t (a int NOT NULL)"
    );
    assert_eq!(
        drop_objects(ObjectType::Table, vec![name(&["s", "t"]), name(&["s", "u"])], false).to_sql(),
        "DROP TABLE s.t, s.u"
    );
    assert_eq!(
        Statement::Drop {
            object_type: ObjectType::Schema,
            if_exists: true,
            names: vec![name(&["s"])],
            cascade: true
        }
        .to_sql(),
        "DROP SCHEMA IF EXISTS s CASCADE"
    );
    assert_eq!(
        Statement::StartTransaction("START TRANSACTION READ ONLY".to_string()).to_sql(),
        "START TRANSACTION READ ONLY"
    );
    assert_eq!(Statement::SetVariable("SET x = 1".to_string()).to_sql(), "SET x = 1");
    assert_eq!(Statement::Other("COMMIT".to_string()).to_sql(), "COMMIT");
}

#[test]
fn a_placeholder_where_none_can_be_bound_ends_the_bind() {
    let mut executor = executor_with_table();
    run(&mut executor, "q", create_table(&["s", "d"], vec![("$1", DataType::Int)]));
    let unsupported = || {
        vec![
            Ok(QueryEvent::ParseComplete),
            Err(QueryError::FeatureNotSupported(
                "parameters cannot be bound to this statement".to_string(),
            )),
        ]
    };
    let from_select = Statement::Insert {
        table_name: name(&["s", "t"]),
        columns: vec![],
        source: Query::new(SetExpr::Select(Select {
            projection: vec![SelectItem::Wildcard, SelectItem::UnnamedExpr(ident("$2"))],
            from: from_table(&["s", "t"]),
            text: String::new(),
        })),
    };
    let from_values = Statement::Insert {
        table_name: name(&["s", "t"]),
        columns: vec![],
        source: Query::new(SetExpr::Other("VALUES ($1) UNION VALUES ($2)".to_string())),
    };
    for statement in [select(&["$1"], &["s", "d"]), from_select] {
        executor.parse_prepared_statement("st", "text", Some(statement), &[]).unwrap();
        executor.bind_prepared_statement_to_portal("po", "st", &[], &[], &[]).unwrap();
        assert_eq!(executor.flush(), unsupported());
        executor.execute_portal("po", 0).unwrap();
        assert_eq!(executor.flush(), vec![Err(QueryError::PortalDoesNotExist("po".to_string()))]);
    }
    executor.parse_prepared_statement("st", "text", Some(from_values), &[]).unwrap();
    executor.bind_prepared_statement_to_portal("po", "st", &[], &[], &[]).unwrap();
    assert_eq!(
        executor.flush(),
        vec![Ok(QueryEvent::ParseComplete), Ok(QueryEvent::BindComplete)]
    );
    executor
        .parse_prepared_statement("st", "text", Some(select(&["a"], &["s", "t"])), &[])
        .unwrap();
    executor.bind_prepared_statement_to_portal("po", "st", &[], &[], &[]).unwrap();
    assert_eq!(
        executor.flush(),
        vec![Ok(QueryEvent::ParseComplete), Ok(QueryEvent::BindComplete)]
    );
}

#[test]
fn a_portal_runs_under_the_text_of_its_statement() {
    let mut executor = executor_with_table();
    let from_select = Statement::Insert {
        table_name: name(&["s", "t"]),
        columns: vec![Ident { value: "a".to_string(), quote_style: Some(QuoteStyle::Double) }],
        source: Query {
            ctes: vec![],
            body: SetExpr::Select(Select {
                projection: vec![SelectItem::UnnamedExpr(ident("a"))],
                from: from_table(&["s", "t"]),
                text: "SELECT a FROM s.t WHERE a = 1".to_string(),
            }),
            order_by: vec!["a DESC".to_string()],
            limit: Some("3".to_string()),
            offset: None,
            fetch: None,
        },
    };
    executor.parse_prepared_statement("st", "insert ...", Some(from_select), &[]).unwrap();
    executor.bind_prepared_statement_to_portal("po", "st", &[], &[], &[]).unwrap();
    executor.execute_portal("po", 0).unwrap();
    assert_eq!(
        executor.flush(),
        vec![
            Ok(QueryEvent::ParseComplete),
            Ok(QueryEvent::BindComplete),
            Err(QueryError::FeatureNotSupported(
                "INSERT INTO s.t (\"a\") SELECT a FROM s.t WHERE a = 1 ORDER BY a DESC LIMIT 3"
                    .to_string()
            )),
        ]
    );
    executor
        .parse_prepared_statement(
            "st",
            "text",
            Some(Statement::Other("SET TRANSACTION READ ONLY".to_string())),
            &[],
        )
        .unwrap();
    executor.bind_prepared_statement_to_portal("po", "st", &[], &[], &[]).unwrap();
    executor.execute_portal("po", 0).unwrap();
    assert_eq!(
        executor.flush(),
        vec![
            Ok(QueryEvent::ParseComplete),
            Ok(QueryEvent::BindComplete),
            Err(QueryError::FeatureNotSupported("SET TRANSACTION READ ONLY".to_string())),
        ]
    );
}

#[test]
fn catalog_manager_keeps_schemas_tables_and_rows() {
    let mut catalog = CatalogManager::new();
    assert_eq!(catalog.schema_exists("s"), None);
    assert!(catalog.create_schema("s"));
    assert!(!catalog.create_schema("s"));
    assert!(catalog.create_schema("r"));
    assert_eq!(catalog.schema_exists("r"), Some(1));
    let columns =
        vec![ColumnDefinition::new("a", SqlType::Bool), ColumnDefinition::new("b", SqlType::Bool)];
    assert!(!catalog.create_table("x", "t", columns.clone()));
    assert!(catalog.create_table("r", "t", columns.clone()));
    assert!(!catalog.create_table("r", "t", vec![]));
    assert!(catalog.create_table("r", "u", vec![]));
    assert_eq!(catalog.table_exists("r", "u"), Some((1, Some(1))));
    assert_eq!(catalog.table_columns("r", "t"), columns);
    assert_eq!(catalog.table_columns("r", "x"), vec![]);
    assert_eq!(catalog.insert_into("r", "x", vec![]), None);
    assert_eq!(catalog.insert_into("r", "t", rows(&[&["1", "2"], &["3"]])), None);
    assert_eq!(catalog.full_scan("r", "t"), Vec::<Vec<String>>::new());
    assert_eq!(catalog.insert_into("r", "t", rows(&[&["1", "2"], &["3", "4"]])), Some(2));
    assert_eq!(catalog.insert_into("r", "t", rows(&[&["5", "6"]])), Some(1));
    assert_eq!(catalog.full_scan("r", "t"), rows(&[&["1", "2"], &["3", "4"], &["5", "6"]]));
    assert_eq!(catalog.update_all("r", "t", &vec![(2, "x".to_string())]), None);
    assert_eq!(catalog.update_all("r", "x", &vec![]), None);
    assert_eq!(
        catalog.update_all("r", "t", &vec![(1, "x".to_string()), (0, "y".to_string())]),
        Some(3)
    );
    assert_eq!(catalog.full_scan("r", "t"), rows(&[&["y", "x"], &["y", "x"], &["y", "x"]]));
    assert_eq!(catalog.delete_all_from("r", "x"), None);
    assert_eq!(catalog.delete_all_from("r", "t"), Some(3));
    assert_eq!(catalog.full_scan("r", "t"), Vec::<Vec<String>>::new());
    assert!(catalog.drop_table("r", "t"));
    assert!(!catalog.drop_table("r", "t"));
    assert_eq!(catalog.table_exists("r", "u"), Some((1, Some(0))));
    assert!(catalog.drop_schema("s"));
    assert!(!catalog.drop_schema("s"));
    assert_eq!(catalog.schema_exists("r"), Some(0));
}
