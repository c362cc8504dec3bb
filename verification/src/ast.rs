//! The statements that the engine accepts, as the parser hands them over:
//! what planning, binding and execution read is kept as structure, and
//! every other construct is carried as the text that the parser wrote for
//! it, so that a statement can be written back without loss.

use vstd::prelude::*;

verus! {

/// How an identifier was quoted.
#[derive(Clone, Copy, Debug, PartialEq, Eq, Structural)]
pub enum QuoteStyle {
    /// `"name"`
    Double,
    /// `'name'`
    Single,
    /// `` `name` ``
    Backtick,
    /// `[name]`
    Bracket,
}

/// An identifier: its value without quotes, and how it was quoted.
#[derive(Debug, PartialEq, Eq)]
pub struct Ident {
    pub value: String,
    pub quote_style: Option<QuoteStyle>,
}

/// The mathematical value of an [`Ident`].
pub struct IdentModel {
    pub value: Seq<char>,
    pub quote_style: Option<QuoteStyle>,
}

impl View for Ident {
    type V = IdentModel;

    open spec fn view(&self) -> IdentModel {
        IdentModel { value: self.value@, quote_style: self.quote_style }
    }
}

impl DeepView for Ident {
    type V = IdentModel;

    open spec fn deep_view(&self) -> IdentModel {
        self@
    }
}

impl Ident {
    /// An identifier without quotes.
    pub fn new(value: &str) -> (ident: Ident)
        ensures
            ident@ == (IdentModel { value: value@, quote_style: None }),
    {
        Ident { value: value.to_owned(), quote_style: None }
    }
}

/// The values of identifiers, in order.
pub open spec fn ident_values(idents: Seq<IdentModel>) -> Seq<Seq<char>> {
    Seq::new(idents.len(), |i: int| idents[i].value)
}

/// The values of identifiers, in order.
pub fn values_of(idents: &Vec<Ident>) -> (values: Vec<String>)
    ensures
        values.deep_view() == ident_values(idents.deep_view()),
{
    let mut values: Vec<String> = Vec::new();
    let mut i: usize = 0;
    while i < idents.len()
        invariant
            i <= idents@.len(),
            values@.len() == i,
            forall|k: int| 0 <= k < i ==> values@[k]@ == idents@[k]@.value,
        decreases idents@.len() - i,
    {
        values.push(idents[i].value.clone());
        i += 1;
    }
    assert(values.deep_view() =~= ident_values(idents.deep_view()));
    values
}

/// A possibly qualified name: its segments, outermost first, each as it was
/// written.
#[derive(Debug, PartialEq, Eq)]
pub struct ObjectName(pub Vec<String>);

impl View for ObjectName {
    type V = Seq<Seq<char>>;

    open spec fn view(&self) -> Seq<Seq<char>> {
        self.0.deep_view()
    }
}

impl DeepView for ObjectName {
    type V = Seq<Seq<char>>;

    open spec fn deep_view(&self) -> Seq<Seq<char>> {
        self@
    }
}

/// A literal.
#[derive(Debug, PartialEq, Eq)]
pub enum Value {
    Number(String),
    SingleQuotedString(String),
    Boolean(bool),
    Null,
}

/// The mathematical value of a [`Value`].
pub enum ValueModel {
    Number(Seq<char>),
    SingleQuotedString(Seq<char>),
    Boolean(bool),
    Null,
}

impl View for Value {
    type V = ValueModel;

    open spec fn view(&self) -> ValueModel {
        match self {
            Value::Number(digits) => ValueModel::Number(digits@),
            Value::SingleQuotedString(text) => ValueModel::SingleQuotedString(text@),
            Value::Boolean(b) => ValueModel::Boolean(*b),
            Value::Null => ValueModel::Null,
        }
    }
}

/// An expression: a bare identifier, a literal, a number with a minus sign
/// before it, or anything else as text.
#[derive(Debug, PartialEq, Eq)]
pub enum Expr {
    Identifier(Ident),
    Value(Value),
    /// The negation of a numeric literal, by the text of the literal.
    Negative(String),
    Other(String),
}

/// The mathematical value of an [`Expr`].
pub enum ExprModel {
    Identifier(IdentModel),
    Value(ValueModel),
    Negative(Seq<char>),
    Other(Seq<char>),
}

impl View for Expr {
    type V = ExprModel;

    open spec fn view(&self) -> ExprModel {
        match self {
            Expr::Identifier(ident) => ExprModel::Identifier(ident@),
            Expr::Value(value) => ExprModel::Value(value@),
            Expr::Negative(digits) => ExprModel::Negative(digits@),
            Expr::Other(text) => ExprModel::Other(text@),
        }
    }
}

impl DeepView for Expr {
    type V = ExprModel;

    open spec fn deep_view(&self) -> ExprModel {
        self@
    }
}

/// One item of a projection.
#[derive(Debug, PartialEq, Eq)]
pub enum SelectItem {
    /// An unqualified `*`.
    Wildcard,
    /// An expression without an alias.
    UnnamedExpr(Expr),
    /// Any other item, as text.
    Other(String),
}

/// The mathematical value of a [`SelectItem`].
pub enum SelectItemModel {
    Wildcard,
    UnnamedExpr(ExprModel),
    Other(Seq<char>),
}

impl View for SelectItem {
    type V = SelectItemModel;

    open spec fn view(&self) -> SelectItemModel {
        match self {
            SelectItem::Wildcard => SelectItemModel::Wildcard,
            SelectItem::UnnamedExpr(expr) => SelectItemModel::UnnamedExpr(expr@),
            SelectItem::Other(text) => SelectItemModel::Other(text@),
        }
    }
}

impl DeepView for SelectItem {
    type V = SelectItemModel;

    open spec fn deep_view(&self) -> SelectItemModel {
        self@
    }
}

/// What a `FROM` item reads from.
#[derive(Debug, PartialEq, Eq)]
pub enum TableFactor {
    /// A table addressed by name.
    Table { name: ObjectName },
    /// A derived table, a nested join or the like, as text.
    Other(String),
}

/// The mathematical value of a [`TableFactor`].
pub enum TableFactorModel {
    Table { name: Seq<Seq<char>> },
    Other(Seq<char>),
}

impl View for TableFactor {
    type V = TableFactorModel;

    open spec fn view(&self) -> TableFactorModel {
        match self {
            TableFactor::Table { name } => TableFactorModel::Table { name: name@ },
            TableFactor::Other(text) => TableFactorModel::Other(text@),
        }
    }
}

/// One item of a `FROM` clause: a relation and the joins on it, each join
/// as text.
#[derive(Debug, PartialEq, Eq)]
pub struct TableWithJoins {
    pub relation: TableFactor,
    pub joins: Vec<String>,
}

/// The mathematical value of a [`TableWithJoins`].
pub struct TableWithJoinsModel {
    pub relation: TableFactorModel,
    pub joins: Seq<Seq<char>>,
}

impl View for TableWithJoins {
    type V = TableWithJoinsModel;

    open spec fn view(&self) -> TableWithJoinsModel {
        TableWithJoinsModel { relation: self.relation@, joins: self.joins.deep_view() }
    }
}

impl DeepView for TableWithJoins {
    type V = TableWithJoinsModel;

    open spec fn deep_view(&self) -> TableWithJoinsModel {
        self@
    }
}

/// A `SELECT`: its projection, its `FROM` clause, and the whole of it as
/// text.
#[derive(Debug, PartialEq, Eq)]
pub struct Select {
    pub projection: Vec<SelectItem>,
    pub from: Vec<TableWithJoins>,
    pub text: String,
}

/// The mathematical value of a [`Select`].
pub struct SelectModel {
    pub projection: Seq<SelectItemModel>,
    pub from: Seq<TableWithJoinsModel>,
    pub text: Seq<char>,
}

impl View for Select {
    type V = SelectModel;

    open spec fn view(&self) -> SelectModel {
        SelectModel {
            projection: self.projection.deep_view(),
            from: self.from.deep_view(),
            text: self.text@,
        }
    }
}

/// The body of a query.
#[derive(Debug, PartialEq, Eq)]
pub enum SetExpr {
    Select(Select),
    /// `VALUES` rows.
    Values(Vec<Vec<Expr>>),
    /// A set operation or a parenthesized query, as text.
    Other(String),
}

/// The mathematical value of a [`SetExpr`].
pub enum SetExprModel {
    Select(SelectModel),
    Values(Seq<Seq<ExprModel>>),
    Other(Seq<char>),
}

impl View for SetExpr {
    type V = SetExprModel;

    open spec fn view(&self) -> SetExprModel {
        match self {
            SetExpr::Select(select) => SetExprModel::Select(select@),
            SetExpr::Values(rows) => SetExprModel::Values(rows.deep_view()),
            SetExpr::Other(text) => SetExprModel::Other(text@),
        }
    }
}

/// A query: its body, and what stands around the body, each part as text.
#[derive(Debug, PartialEq, Eq)]
pub struct Query {
    /// The common table expressions of a `WITH`.
    pub ctes: Vec<String>,
    pub body: SetExpr,
    /// The expressions of an `ORDER BY`.
    pub order_by: Vec<String>,
    /// The expression of a `LIMIT`.
    pub limit: Option<String>,
    /// An `OFFSET` clause.
    pub offset: Option<String>,
    /// A `FETCH` clause.
    pub fetch: Option<String>,
}

/// The mathematical value of a [`Query`].
pub struct QueryModel {
    pub ctes: Seq<Seq<char>>,
    pub body: SetExprModel,
    pub order_by: Seq<Seq<char>>,
    pub limit: Option<Seq<char>>,
    pub offset: Option<Seq<char>>,
    pub fetch: Option<Seq<char>>,
}

impl View for Query {
    type V = QueryModel;

    open spec fn view(&self) -> QueryModel {
        QueryModel {
            ctes: self.ctes.deep_view(),
            body: self.body@,
            order_by: self.order_by.deep_view(),
            limit: self.limit.deep_view(),
            offset: self.offset.deep_view(),
            fetch: self.fetch.deep_view(),
        }
    }
}

impl Query {
    /// A query that is its body and nothing else.
    pub fn new(body: SetExpr) -> (query: Query)
        ensures
            query@ == (QueryModel {
                ctes: Seq::empty(),
                body: body@,
                order_by: Seq::empty(),
                limit: None,
                offset: None,
                fetch: None,
            }),
    {
        let query = Query {
            ctes: Vec::new(),
            body,
            order_by: Vec::new(),
            limit: None,
            offset: None,
            fetch: None,
        };
        assert(query@.ctes =~= Seq::empty());
        assert(query@.order_by =~= Seq::empty());
        query
    }
}

/// The type that a column definition names.
#[derive(Debug, PartialEq, Eq)]
pub enum DataType {
    SmallInt,
    Int,
    BigInt,
    Char(Option<u64>),
    Varchar(Option<u64>),
    Boolean,
    /// A type that the parser does not know, by its name.
    Custom(String),
    /// Any other type, as text.
    Other(String),
}

/// The mathematical value of a [`DataType`].
pub enum DataTypeModel {
    SmallInt,
    Int,
    BigInt,
    Char(Option<u64>),
    Varchar(Option<u64>),
    Boolean,
    Custom(Seq<char>),
    Other(Seq<char>),
}

impl View for DataType {
    type V = DataTypeModel;

    open spec fn view(&self) -> DataTypeModel {
        match self {
            DataType::SmallInt => DataTypeModel::SmallInt,
            DataType::Int => DataTypeModel::Int,
            DataType::BigInt => DataTypeModel::BigInt,
            DataType::Char(len) => DataTypeModel::Char(*len),
            DataType::Varchar(len) => DataTypeModel::Varchar(*len),
            DataType::Boolean => DataTypeModel::Boolean,
            DataType::Custom(name) => DataTypeModel::Custom(name@),
            DataType::Other(text) => DataTypeModel::Other(text@),
        }
    }
}

/// A column of a `CREATE TABLE`.
#[derive(Debug, PartialEq, Eq)]
pub struct ColumnDef {
    pub name: String,
    pub data_type: DataType,
}

/// The mathematical value of a [`ColumnDef`].
pub struct ColumnDefModel {
    pub name: Seq<char>,
    pub data_type: DataTypeModel,
}

impl View for ColumnDef {
    type V = ColumnDefModel;

    open spec fn view(&self) -> ColumnDefModel {
        ColumnDefModel { name: self.name@, data_type: self.data_type@ }
    }
}

impl DeepView for ColumnDef {
    type V = ColumnDefModel;

    open spec fn deep_view(&self) -> ColumnDefModel {
        self@
    }
}

/// The kind of object that a `DROP` removes.
#[derive(Clone, Copy, Debug, PartialEq, Eq, Structural)]
pub enum ObjectType {
    Table,
    Schema,
}

/// One `column = value` of an `UPDATE`.
#[derive(Debug, PartialEq, Eq)]
pub struct Assignment {
    pub id: Ident,
    pub value: Expr,
}

/// The mathematical value of an [`Assignment`].
pub struct AssignmentModel {
    pub id: IdentModel,
    pub value: ExprModel,
}

impl View for Assignment {
    type V = AssignmentModel;

    open spec fn view(&self) -> AssignmentModel {
        AssignmentModel { id: self.id@, value: self.value@ }
    }
}

impl DeepView for Assignment {
    type V = AssignmentModel;

    open spec fn deep_view(&self) -> AssignmentModel {
        self@
    }
}

/// One parsed statement.
#[derive(Debug, PartialEq, Eq)]
#[allow(inconsistent_fields)]
pub enum Statement {
    Query(Query),
    Insert { table_name: ObjectName, columns: Vec<Ident>, source: Query },
    /// `selection` is the condition of a `WHERE`, as text.
    Update { table_name: ObjectName, assignments: Vec<Assignment>, selection: Option<String> },
    /// `selection` is the condition of a `WHERE`, as text.
    Delete { table_name: ObjectName, selection: Option<String> },
    /// `text` is the whole statement.
    CreateTable { name: ObjectName, columns: Vec<ColumnDef>, text: String },
    CreateSchema { schema_name: ObjectName },
    Drop { object_type: ObjectType, if_exists: bool, names: Vec<ObjectName>, cascade: bool },
    /// The whole statement, as text.
    StartTransaction(String),
    /// The whole statement, as text.
    SetVariable(String),
    /// Any other statement, as text.
    Other(String),
}

/// The mathematical value of a [`Statement`].
#[allow(inconsistent_fields)]
pub enum StatementModel {
    Query(QueryModel),
    Insert { table_name: Seq<Seq<char>>, columns: Seq<IdentModel>, source: QueryModel },
    Update {
        table_name: Seq<Seq<char>>,
        assignments: Seq<AssignmentModel>,
        selection: Option<Seq<char>>,
    },
    Delete { table_name: Seq<Seq<char>>, selection: Option<Seq<char>> },
    CreateTable { name: Seq<Seq<char>>, columns: Seq<ColumnDefModel>, text: Seq<char> },
    CreateSchema { schema_name: Seq<Seq<char>> },
    Drop { object_type: ObjectType, if_exists: bool, names: Seq<Seq<Seq<char>>>, cascade: bool },
    StartTransaction(Seq<char>),
    SetVariable(Seq<char>),
    Other(Seq<char>),
}

impl View for Statement {
    type V = StatementModel;

    open spec fn view(&self) -> StatementModel {
        match self {
            Statement::Query(query) => StatementModel::Query(query@),
            Statement::Insert { table_name, columns, source } => StatementModel::Insert {
                table_name: table_name@,
                columns: columns.deep_view(),
                source: source@,
            },
            Statement::Update { table_name, assignments, selection } => StatementModel::Update {
                table_name: table_name@,
                assignments: assignments.deep_view(),
                selection: selection.deep_view(),
            },
            Statement::Delete { table_name, selection } => StatementModel::Delete {
                table_name: table_name@,
                selection: selection.deep_view(),
            },
            Statement::CreateTable { name, columns, text } => StatementModel::CreateTable {
                name: name@,
                columns: columns.deep_view(),
                text: text@,
            },
            Statement::CreateSchema { schema_name } => StatementModel::CreateSchema {
                schema_name: schema_name@,
            },
            Statement::Drop { object_type, if_exists, names, cascade } => StatementModel::Drop {
                object_type: *object_type,
                if_exists: *if_exists,
                names: names.deep_view(),
                cascade: *cascade,
            },
            Statement::StartTransaction(text) => StatementModel::StartTransaction(text@),
            Statement::SetVariable(text) => StatementModel::SetVariable(text@),
            Statement::Other(text) => StatementModel::Other(text@),
        }
    }
}

impl Clone for ObjectName {
    fn clone(&self) -> (copy: Self)
        ensures
            copy@ == self@,
    {
        let segments = self.0.clone();
        assert(segments.deep_view() =~= self.0.deep_view());
        ObjectName(segments)
    }
}

impl Clone for Ident {
    fn clone(&self) -> (copy: Self)
        ensures
            copy@ == self@,
    {
        Ident { value: self.value.clone(), quote_style: self.quote_style }
    }
}

/// A copy of a text that may be absent.
pub fn clone_text(text: &Option<String>) -> (copy: Option<String>)
    ensures
        copy.deep_view() == text.deep_view(),
{
    match text {
        Some(text) => Some(text.clone()),
        None => None,
    }
}

impl Clone for Value {
    fn clone(&self) -> (copy: Self)
        ensures
            copy@ == self@,
    {
        match self {
            Value::Number(digits) => Value::Number(digits.clone()),
            Value::SingleQuotedString(text) => Value::SingleQuotedString(text.clone()),
            Value::Boolean(b) => Value::Boolean(*b),
            Value::Null => Value::Null,
        }
    }
}

impl Clone for Expr {
    fn clone(&self) -> (copy: Self)
        ensures
            copy@ == self@,
    {
        match self {
            Expr::Identifier(ident) => Expr::Identifier(ident.clone()),
            Expr::Value(value) => Expr::Value(value.clone()),
            Expr::Negative(digits) => Expr::Negative(digits.clone()),
            Expr::Other(text) => Expr::Other(text.clone()),
        }
    }
}

/// A copy of a list of expressions.
pub fn clone_exprs(exprs: &Vec<Expr>) -> (copy: Vec<Expr>)
    ensures
        copy.deep_view() == exprs.deep_view(),
{
    let copy = exprs.clone();
    assert(copy.deep_view() =~= exprs.deep_view());
    copy
}

/// A copy of a list of rows of expressions.
pub fn clone_expr_rows(rows: &Vec<Vec<Expr>>) -> (copy: Vec<Vec<Expr>>)
    ensures
        copy.deep_view() == rows.deep_view(),
{
    let mut copy: Vec<Vec<Expr>> = Vec::new();
    let mut i: usize = 0;
    while i < rows.len()
        invariant
            i <= rows@.len(),
            copy@.len() == i,
            forall|j: int| 0 <= j < i ==> copy@[j].deep_view() == rows@[j].deep_view(),
        decreases rows@.len() - i,
    {
        copy.push(clone_exprs(&rows[i]));
        i += 1;
    }
    assert(copy.deep_view() =~= rows.deep_view());
    copy
}

impl Clone for SelectItem {
    fn clone(&self) -> (copy: Self)
        ensures
            copy@ == self@,
    {
        match self {
            SelectItem::Wildcard => SelectItem::Wildcard,
            SelectItem::UnnamedExpr(expr) => SelectItem::UnnamedExpr(expr.clone()),
            SelectItem::Other(text) => SelectItem::Other(text.clone()),
        }
    }
}

impl Clone for TableFactor {
    fn clone(&self) -> (copy: Self)
        ensures
            copy@ == self@,
    {
        match self {
            TableFactor::Table { name } => TableFactor::Table { name: name.clone() },
            TableFactor::Other(text) => TableFactor::Other(text.clone()),
        }
    }
}

impl Clone for TableWithJoins {
    fn clone(&self) -> (copy: Self)
        ensures
            copy@ == self@,
    {
        let joins = self.joins.clone();
        assert(joins.deep_view() =~= self.joins.deep_view());
        TableWithJoins { relation: self.relation.clone(), joins }
    }
}

impl Clone for Select {
    fn clone(&self) -> (copy: Self)
        ensures
            copy@ == self@,
    {
        let projection = self.projection.clone();
        assert(projection.deep_view() =~= self.projection.deep_view());
        let from = self.from.clone();
        assert(from.deep_view() =~= self.from.deep_view());
        Select { projection, from, text: self.text.clone() }
    }
}

impl Clone for SetExpr {
    fn clone(&self) -> (copy: Self)
        ensures
            copy@ == self@,
    {
        match self {
            SetExpr::Select(select) => SetExpr::Select(select.clone()),
            SetExpr::Values(rows) => SetExpr::Values(clone_expr_rows(rows)),
            SetExpr::Other(text) => SetExpr::Other(text.clone()),
        }
    }
}

impl Clone for Query {
    fn clone(&self) -> (copy: Self)
        ensures
            copy@ == self@,
    {
        let ctes = self.ctes.clone();
        assert(ctes.deep_view() =~= self.ctes.deep_view());
        let order_by = self.order_by.clone();
        assert(order_by.deep_view() =~= self.order_by.deep_view());
        Query {
            ctes,
            body: self.body.clone(),
            order_by,
            limit: clone_text(&self.limit),
            offset: clone_text(&self.offset),
            fetch: clone_text(&self.fetch),
        }
    }
}

impl Clone for DataType {
    fn clone(&self) -> (copy: Self)
        ensures
            copy@ == self@,
    {
        match self {
            DataType::SmallInt => DataType::SmallInt,
            DataType::Int => DataType::Int,
            DataType::BigInt => DataType::BigInt,
            DataType::Char(len) => DataType::Char(*len),
            DataType::Varchar(len) => DataType::Varchar(*len),
            DataType::Boolean => DataType::Boolean,
            DataType::Custom(name) => DataType::Custom(name.clone()),
            DataType::Other(text) => DataType::Other(text.clone()),
        }
    }
}

impl Clone for ColumnDef {
    fn clone(&self) -> (copy: Self)
        ensures
            copy@ == self@,
    {
        ColumnDef { name: self.name.clone(), data_type: self.data_type.clone() }
    }
}

impl Clone for Assignment {
    fn clone(&self) -> (copy: Self)
        ensures
            copy@ == self@,
    {
        Assignment { id: self.id.clone(), value: self.value.clone() }
    }
}

impl Clone for Statement {
    fn clone(&self) -> (copy: Self)
        ensures
            copy@ == self@,
    {
        match self {
            Statement::Query(query) => Statement::Query(query.clone()),
            Statement::Insert { table_name, columns, source } => {
                let copied = columns.clone();
                assert(copied.deep_view() =~= columns.deep_view());
                Statement::Insert {
                    table_name: table_name.clone(),
                    columns: copied,
                    source: source.clone(),
                }
            },
            Statement::Update { table_name, assignments, selection } => {
                let copied = assignments.clone();
                assert(copied.deep_view() =~= assignments.deep_view());
                Statement::Update {
                    table_name: table_name.clone(),
                    assignments: copied,
                    selection: clone_text(selection),
                }
            },
            Statement::Delete { table_name, selection } => Statement::Delete {
                table_name: table_name.clone(),
                selection: clone_text(selection),
            },
            Statement::CreateTable { name, columns, text } => {
                let copied = columns.clone();
                assert(copied.deep_view() =~= columns.deep_view());
                Statement::CreateTable { name: name.clone(), columns: copied, text: text.clone() }
            },
            Statement::CreateSchema { schema_name } => Statement::CreateSchema {
                schema_name: schema_name.clone(),
            },
            Statement::Drop { object_type, if_exists, names, cascade } => {
                let copied = names.clone();
                assert(copied.deep_view() =~= names.deep_view());
                Statement::Drop {
                    object_type: *object_type,
                    if_exists: *if_exists,
                    names: copied,
                    cascade: *cascade,
                }
            },
            Statement::StartTransaction(text) => Statement::StartTransaction(text.clone()),
            Statement::SetVariable(text) => Statement::SetVariable(text.clone()),
            Statement::Other(text) => Statement::Other(text.clone()),
        }
    }
}

} // verus!
