//! Statements written back as SQL text, for diagnostics. What a statement
//! keeps as structure is written as the parser writes it; what it carries
//! as text is written as it is.

use crate::ast::{Assignment, AssignmentModel, Expr, ExprModel, Ident, IdentModel, ObjectName,
    ObjectType, Query, QueryModel, QuoteStyle, SetExpr, SetExprModel, Statement, StatementModel,
    Value, ValueModel};
use crate::query::dotted;
use crate::text::{concat, concat3, join, joined};
use vstd::prelude::*;

verus! {

/// A text with every single quote doubled, as it stands inside a string
/// literal.
pub open spec fn quote_escaped(text: Seq<char>) -> Seq<char>
    decreases text.len(),
{
    if text.len() == 0 {
        Seq::empty()
    } else if text.last() == '\'' {
        quote_escaped(text.drop_last()) + seq!['\'', '\'']
    } else {
        quote_escaped(text.drop_last()).push(text.last())
    }
}

/// An identifier as SQL text: its value, inside its quotes where it has
/// some.
pub open spec fn ident_sql(ident: IdentModel) -> Seq<char> {
    match ident.quote_style {
        None => ident.value,
        Some(QuoteStyle::Double) => "\""@ + ident.value + "\""@,
        Some(QuoteStyle::Single) => "'"@ + ident.value + "'"@,
        Some(QuoteStyle::Backtick) => "`"@ + ident.value + "`"@,
        Some(QuoteStyle::Bracket) => "["@ + ident.value + "]"@,
    }
}

/// Identifiers as SQL text, with a comma between each two.
pub open spec fn idents_sql(idents: Seq<IdentModel>) -> Seq<char> {
    joined(Seq::new(idents.len(), |i: int| ident_sql(idents[i])), ", "@)
}

/// A literal as SQL text.
pub open spec fn value_sql(value: ValueModel) -> Seq<char> {
    match value {
        ValueModel::Number(digits) => digits,
        ValueModel::SingleQuotedString(text) => "'"@ + quote_escaped(text) + "'"@,
        ValueModel::Boolean(b) => if b {
            "true"@
        } else {
            "false"@
        },
        ValueModel::Null => "NULL"@,
    }
}

/// An expression as SQL text.
pub open spec fn expr_sql(expr: ExprModel) -> Seq<char> {
    match expr {
        ExprModel::Identifier(ident) => ident_sql(ident),
        ExprModel::Value(value) => value_sql(value),
        ExprModel::Negative(digits) => "- "@ + digits,
        ExprModel::Other(text) => text,
    }
}

/// Expressions as SQL text, with a comma between each two.
pub open spec fn exprs_sql(exprs: Seq<ExprModel>) -> Seq<char> {
    joined(Seq::new(exprs.len(), |i: int| expr_sql(exprs[i])), ", "@)
}

/// A row of values as SQL text, in parentheses.
pub open spec fn row_sql(row: Seq<ExprModel>) -> Seq<char> {
    "("@ + exprs_sql(row) + ")"@
}

/// The body of a query as SQL text: a `SELECT` as it was written, and
/// `VALUES` from its rows.
pub open spec fn body_sql(body: SetExprModel) -> Seq<char> {
    match body {
        SetExprModel::Select(select) => select.text,
        SetExprModel::Values(rows) => "VALUES "@ + joined(
            Seq::new(rows.len(), |i: int| row_sql(rows[i])),
            ", "@,
        ),
        SetExprModel::Other(text) => text,
    }
}

/// A list after a keyword and before a closing text; nothing where the
/// list is empty.
pub open spec fn list_sql(before: Seq<char>, parts: Seq<Seq<char>>, after: Seq<char>) -> Seq<char> {
    if parts.len() == 0 {
        Seq::empty()
    } else {
        before + joined(parts, ", "@) + after
    }
}

/// A clause after a keyword; nothing where the clause is absent.
pub open spec fn clause_sql(before: Seq<char>, clause: Option<Seq<char>>) -> Seq<char> {
    match clause {
        Some(text) => before + text,
        None => Seq::empty(),
    }
}

/// A query as SQL text: `WITH`, the body, `ORDER BY`, `LIMIT`, and the
/// offset and fetch clauses.
pub open spec fn query_sql(query: QueryModel) -> Seq<char> {
    list_sql("WITH "@, query.ctes, " "@) + body_sql(query.body) + list_sql(
        " ORDER BY "@,
        query.order_by,
        Seq::empty(),
    ) + clause_sql(" LIMIT "@, query.limit) + clause_sql(" "@, query.offset) + clause_sql(
        " "@,
        query.fetch,
    )
}

/// An assignment of an `UPDATE` as SQL text.
pub open spec fn assignment_sql(assignment: AssignmentModel) -> Seq<char> {
    ident_sql(assignment.id) + " = "@ + expr_sql(assignment.value)
}

/// The assignments of an `UPDATE`, each as SQL text.
pub open spec fn assignments_sql(assignments: Seq<AssignmentModel>) -> Seq<Seq<char>> {
    Seq::new(assignments.len(), |i: int| assignment_sql(assignments[i]))
}

/// Names as SQL text, each with dots between its segments.
pub open spec fn names_sql(names: Seq<Seq<Seq<char>>>) -> Seq<Seq<char>> {
    Seq::new(names.len(), |i: int| dotted(names[i]))
}

/// The keyword of an object type.
pub open spec fn object_type_sql(object_type: ObjectType) -> Seq<char> {
    match object_type {
        ObjectType::Table => "TABLE"@,
        ObjectType::Schema => "SCHEMA"@,
    }
}

/// A word where a flag is set; nothing where it is not.
pub open spec fn flag_sql(flag: bool, word: Seq<char>) -> Seq<char> {
    if flag {
        word
    } else {
        Seq::empty()
    }
}

/// A statement as SQL text.
pub open spec fn sql_text(statement: StatementModel) -> Seq<char> {
    match statement {
        StatementModel::Query(query) => query_sql(query),
        StatementModel::Insert { table_name, columns, source } => "INSERT INTO "@ + dotted(
            table_name,
        ) + " "@ + list_sql(
            "("@,
            Seq::new(columns.len(), |i: int| ident_sql(columns[i])),
            ") "@,
        ) + query_sql(source),
        StatementModel::Update { table_name, assignments, selection } => "UPDATE "@ + dotted(
            table_name,
        ) + list_sql(" SET "@, assignments_sql(assignments), Seq::empty()) + clause_sql(
            " WHERE "@,
            selection,
        ),
        StatementModel::Delete { table_name, selection } => "DELETE FROM "@ + dotted(table_name)
            + clause_sql(" WHERE "@, selection),
        StatementModel::CreateTable { text, .. } => text,
        StatementModel::CreateSchema { schema_name } => "CREATE SCHEMA "@ + dotted(schema_name),
        StatementModel::Drop { object_type, if_exists, names, cascade } => "DROP "@
            + object_type_sql(object_type) + flag_sql(if_exists, " IF EXISTS"@) + " "@ + joined(
            names_sql(names),
            ", "@,
        ) + flag_sql(cascade, " CASCADE"@),
        StatementModel::StartTransaction(text) => text,
        StatementModel::SetVariable(text) => text,
        StatementModel::Other(text) => text,
    }
}

/// Doubles every single quote of a text.
pub fn escape_quotes(text: &str) -> (escaped: String)
    ensures
        escaped@ == quote_escaped(text@),
{
    let len = text.unicode_len();
    let mut escaped = String::new();
    let mut i: usize = 0;
    assert(text@.take(0) =~= Seq::empty());
    while i < len
        invariant
            i <= len,
            len == text@.len(),
            escaped@ == quote_escaped(text@.take(i as int)),
        decreases len - i,
    {
        proof {
            assert(text@.take(i + 1).drop_last() =~= text@.take(i as int));
            reveal_strlit("''");
        }
        let c = text.get_char(i);
        if c == '\'' {
            escaped.append("''");
            assert("''"@ =~= seq!['\'', '\'']);
        } else {
            let one = text.substring_char(i, i + 1);
            assert(one@ =~= seq![c]);
            let ghost before = escaped@;
            escaped.append(one);
            assert(escaped@ =~= before.push(c));
        }
        i += 1;
    }
    assert(text@.take(i as int) =~= text@);
    escaped
}

/// A list after a keyword and before a closing text.
fn list_to_sql(before: &str, parts: &Vec<String>, after: &str) -> (text: String)
    ensures
        text@ == list_sql(before@, parts.deep_view(), after@),
{
    if parts.len() == 0 {
        String::new()
    } else {
        concat3(before, join(parts, ", ").as_str(), after)
    }
}

/// A clause after a keyword.
fn clause_to_sql(before: &str, clause: &Option<String>) -> (text: String)
    ensures
        text@ == clause_sql(before@, clause.deep_view()),
{
    match clause {
        Some(clause) => concat(before, clause.as_str()),
        None => String::new(),
    }
}

/// A word where a flag is set.
fn flag_to_sql(flag: bool, word: &str) -> (text: String)
    ensures
        text@ == flag_sql(flag, word@),
{
    if flag {
        word.to_owned()
    } else {
        String::new()
    }
}

impl Ident {
    /// The identifier as SQL text.
    pub fn to_sql(&self) -> (text: String)
        ensures
            text@ == ident_sql(self@),
    {
        let value = self.value.as_str();
        match self.quote_style {
            None => self.value.clone(),
            Some(QuoteStyle::Double) => concat3("\"", value, "\""),
            Some(QuoteStyle::Single) => concat3("'", value, "'"),
            Some(QuoteStyle::Backtick) => concat3("`", value, "`"),
            Some(QuoteStyle::Bracket) => concat3("[", value, "]"),
        }
    }
}

/// Each identifier as SQL text.
fn idents_to_sql(idents: &Vec<Ident>) -> (parts: Vec<String>)
    ensures
        parts.deep_view() == Seq::new(idents@.len(), |i: int| ident_sql(idents.deep_view()[i])),
{
    let mut parts: Vec<String> = Vec::new();
    let mut i: usize = 0;
    while i < idents.len()
        invariant
            i <= idents@.len(),
            parts@.len() == i,
            forall|k: int| 0 <= k < i ==> parts@[k]@ == ident_sql(idents@[k]@),
        decreases idents@.len() - i,
    {
        parts.push(idents[i].to_sql());
        i += 1;
    }
    assert(parts.deep_view() =~= Seq::new(
        idents@.len(),
        |i: int| ident_sql(idents.deep_view()[i]),
    ));
    parts
}

impl Value {
    /// The literal as SQL text.
    pub fn to_sql(&self) -> (text: String)
        ensures
            text@ == value_sql(self@),
    {
        match self {
            Value::Number(digits) => digits.clone(),
            Value::SingleQuotedString(text) => concat3(
                "'",
                escape_quotes(text.as_str()).as_str(),
                "'",
            ),
            Value::Boolean(b) => if *b {
                "true".to_owned()
            } else {
                "false".to_owned()
            },
            Value::Null => "NULL".to_owned(),
        }
    }
}

impl Expr {
    /// The expression as SQL text.
    pub fn to_sql(&self) -> (text: String)
        ensures
            text@ == expr_sql(self@),
    {
        match self {
            Expr::Identifier(ident) => ident.to_sql(),
            Expr::Value(value) => value.to_sql(),
            Expr::Negative(digits) => concat("- ", digits.as_str()),
            Expr::Other(text) => text.clone(),
        }
    }
}

/// Expressions as SQL text, with a comma between each two.
pub fn exprs_to_sql(exprs: &Vec<Expr>) -> (text: String)
    ensures
        text@ == exprs_sql(exprs.deep_view()),
{
    let mut parts: Vec<String> = Vec::new();
    let mut i: usize = 0;
    while i < exprs.len()
        invariant
            i <= exprs@.len(),
            parts@.len() == i,
            forall|k: int| 0 <= k < i ==> parts@[k]@ == expr_sql(exprs@[k]@),
        decreases exprs@.len() - i,
    {
        parts.push(exprs[i].to_sql());
        i += 1;
    }
    assert(parts.deep_view() =~= Seq::new(
        exprs.deep_view().len(),
        |i: int| expr_sql(exprs.deep_view()[i]),
    ));
    join(&parts, ", ")
}

impl ObjectName {
    /// The name with dots between its segments.
    pub fn to_sql(&self) -> (text: String)
        ensures
            text@ == dotted(self@),
    {
        join(&self.0, ".")
    }
}

impl SetExpr {
    /// The body of a query as SQL text.
    pub fn to_sql(&self) -> (text: String)
        ensures
            text@ == body_sql(self@),
    {
        match self {
            SetExpr::Select(select) => select.text.clone(),
            SetExpr::Values(rows) => {
                let mut parts: Vec<String> = Vec::new();
                let mut i: usize = 0;
                while i < rows.len()
                    invariant
                        i <= rows@.len(),
                        parts@.len() == i,
                        forall|k: int| 0 <= k < i ==> parts@[k]@ == row_sql(rows@[k].deep_view()),
                    decreases rows@.len() - i,
                {
                    parts.push(concat3("(", exprs_to_sql(&rows[i]).as_str(), ")"));
                    i += 1;
                }
                assert(parts.deep_view() =~= Seq::new(
                    rows.deep_view().len(),
                    |i: int| row_sql(rows.deep_view()[i]),
                ));
                concat("VALUES ", join(&parts, ", ").as_str())
            },
            SetExpr::Other(text) => text.clone(),
        }
    }
}

impl Query {
    /// The query as SQL text.
    pub fn to_sql(&self) -> (text: String)
        ensures
            text@ == query_sql(self@),
    {
        proof {
            reveal_strlit("");
            assert(""@ =~= Seq::<char>::empty());
        }
        let mut text = list_to_sql("WITH ", &self.ctes, " ");
        text.append(self.body.to_sql().as_str());
        text.append(list_to_sql(" ORDER BY ", &self.order_by, "").as_str());
        text.append(clause_to_sql(" LIMIT ", &self.limit).as_str());
        text.append(clause_to_sql(" ", &self.offset).as_str());
        text.append(clause_to_sql(" ", &self.fetch).as_str());
        text
    }
}

/// Each assignment as SQL text.
fn assignments_to_sql(assignments: &Vec<Assignment>) -> (parts: Vec<String>)
    ensures
        parts.deep_view() == assignments_sql(assignments.deep_view()),
{
    let mut parts: Vec<String> = Vec::new();
    let mut i: usize = 0;
    while i < assignments.len()
        invariant
            i <= assignments@.len(),
            parts@.len() == i,
            forall|k: int| 0 <= k < i ==> parts@[k]@ == assignment_sql(assignments@[k]@),
        decreases assignments@.len() - i,
    {
        parts.push(
            concat3(
                assignments[i].id.to_sql().as_str(),
                " = ",
                assignments[i].value.to_sql().as_str(),
            ),
        );
        i += 1;
    }
    assert(parts.deep_view() =~= assignments_sql(assignments.deep_view()));
    parts
}

/// Each name as SQL text.
fn names_to_sql(names: &Vec<ObjectName>) -> (parts: Vec<String>)
    ensures
        parts.deep_view() == names_sql(names.deep_view()),
{
    let mut parts: Vec<String> = Vec::new();
    let mut i: usize = 0;
    while i < names.len()
        invariant
            i <= names@.len(),
            parts@.len() == i,
            forall|k: int| 0 <= k < i ==> parts@[k]@ == dotted(names@[k]@),
        decreases names@.len() - i,
    {
        parts.push(names[i].to_sql());
        i += 1;
    }
    assert(parts.deep_view() =~= names_sql(names.deep_view()));
    parts
}

impl Statement {
    /// The statement as SQL text.
    pub fn to_sql(&self) -> (text: String)
        ensures
            text@ == sql_text(self@),
    {
        proof {
            reveal_strlit("");
            assert(""@ =~= Seq::<char>::empty());
        }
        match self {
            Statement::Query(query) => query.to_sql(),
            Statement::Insert { table_name, columns, source } => {
                let mut text = concat3("INSERT INTO ", table_name.to_sql().as_str(), " ");
                text.append(list_to_sql("(", &idents_to_sql(columns), ") ").as_str());
                text.append(source.to_sql().as_str());
                text
            },
            Statement::Update { table_name, assignments, selection } => {
                let mut text = concat("UPDATE ", table_name.to_sql().as_str());
                text.append(list_to_sql(" SET ", &assignments_to_sql(assignments), "").as_str());
                text.append(clause_to_sql(" WHERE ", selection).as_str());
                text
            },
            Statement::Delete { table_name, selection } => {
                let mut text = concat("DELETE FROM ", table_name.to_sql().as_str());
                text.append(clause_to_sql(" WHERE ", selection).as_str());
                text
            },
            Statement::CreateTable { text, .. } => text.clone(),
            Statement::CreateSchema { schema_name } => concat(
                "CREATE SCHEMA ",
                schema_name.to_sql().as_str(),
            ),
            Statement::Drop { object_type, if_exists, names, cascade } => {
                let keyword = match object_type {
                    ObjectType::Table => "TABLE",
                    ObjectType::Schema => "SCHEMA",
                };
                let mut text = concat("DROP ", keyword);
                text.append(flag_to_sql(*if_exists, " IF EXISTS").as_str());
                text.append(" ");
                text.append(join(&names_to_sql(names), ", ").as_str());
                text.append(flag_to_sql(*cascade, " CASCADE").as_str());
                text
            },
            Statement::StartTransaction(text) => text.clone(),
            Statement::SetVariable(text) => text.clone(),
            Statement::Other(text) => text.clone(),
        }
    }
}

} // verus!
