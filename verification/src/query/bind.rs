//! The parameter binder: it replaces the placeholders of a statement by
//! literals of the bound values.

use crate::ast::{Assignment, AssignmentModel, Expr, ExprModel, Query, QueryModel, SelectItem,
    SelectItemModel, SetExpr, SetExprModel, Statement, StatementModel, Value, ValueModel};
use crate::results::{QueryError, QueryErrorModel, Sender};
use crate::sql_types::{PostgreSqlValue, PostgreSqlValueModel};
use crate::text::{char_codes, concat, decimal, is_number, number_value, read_number_chars,
    u64_to_string, Decimal};
use vstd::prelude::*;

verus! {

/// The number of the parameter that `name` stands for, where it is a
/// placeholder: a `$` followed by a decimal number.
pub open spec fn placeholder_number(name: Seq<char>) -> Option<nat> {
    if name.len() >= 1 && name[0] == '$' && is_number(char_codes(name, 1)) {
        Some(number_value(char_codes(name, 1)))
    } else {
        None
    }
}

/// The expression that stands for an integer: a numeric literal, negated
/// where the integer is negative.
pub open spec fn integer_literal(v: int) -> ExprModel {
    if v < 0 {
        ExprModel::Negative(decimal((-v) as nat))
    } else {
        ExprModel::Value(ValueModel::Number(decimal(v as nat)))
    }
}

/// The expression that stands for a bound value.
pub open spec fn literal_of(value: PostgreSqlValueModel) -> ExprModel {
    match value {
        PostgreSqlValueModel::Null => ExprModel::Value(ValueModel::Null),
        PostgreSqlValueModel::True => ExprModel::Value(ValueModel::Boolean(true)),
        PostgreSqlValueModel::False => ExprModel::Value(ValueModel::Boolean(false)),
        PostgreSqlValueModel::Int16(v) => integer_literal(v as int),
        PostgreSqlValueModel::Int32(v) => integer_literal(v as int),
        PostgreSqlValueModel::Int64(v) => integer_literal(v as int),
        PostgreSqlValueModel::String(text) => ExprModel::Value(
            ValueModel::SingleQuotedString(text),
        ),
    }
}

/// The diagnostic for a placeholder without a bound value.
pub open spec fn missing_parameter_message(name: Seq<char>) -> Seq<char> {
    "there is no parameter "@ + name
}

/// The diagnostic for values bound to a statement that takes none.
pub open spec fn unsupported_binding_message() -> Seq<char> {
    "parameters cannot be bound to this statement"@
}

/// Whether an expression is a placeholder.
pub open spec fn is_placeholder(expr: ExprModel) -> bool {
    expr matches ExprModel::Identifier(ident) && placeholder_number(ident.value) is Some
}

/// Whether a row of expressions holds a placeholder.
pub open spec fn row_has_placeholder(row: Seq<ExprModel>) -> bool {
    exists|c: int| 0 <= c < row.len() && is_placeholder(#[trigger] row[c])
}

/// Whether a projection item is a placeholder.
pub open spec fn item_is_placeholder(item: SelectItemModel) -> bool {
    item matches SelectItemModel::UnnamedExpr(expr) && is_placeholder(expr)
}

/// Whether a projection holds a placeholder.
pub open spec fn projection_has_placeholder(items: Seq<SelectItemModel>) -> bool {
    exists|i: int| 0 <= i < items.len() && item_is_placeholder(#[trigger] items[i])
}

/// Whether rows of expressions hold a placeholder.
pub open spec fn rows_have_placeholder(rows: Seq<Seq<ExprModel>>) -> bool {
    exists|r: int| 0 <= r < rows.len() && row_has_placeholder(#[trigger] rows[r])
}

/// Whether a query holds a placeholder in an expression that it keeps: in
/// the projection of a `SELECT` or in a row of `VALUES`.
pub open spec fn query_has_placeholder(query: QueryModel) -> bool {
    match query.body {
        SetExprModel::Select(select) => projection_has_placeholder(select.projection),
        SetExprModel::Values(rows) => rows_have_placeholder(rows),
        SetExprModel::Other(_) => false,
    }
}

/// Whether a statement holds a free parameter: a placeholder in any
/// expression that it keeps.
pub open spec fn has_free_parameter(statement: StatementModel) -> bool {
    match statement {
        StatementModel::Query(query) => query_has_placeholder(query),
        StatementModel::Insert { source, .. } => query_has_placeholder(source),
        StatementModel::Update { assignments, .. } => exists|a: int|
            0 <= a < assignments.len() && is_placeholder((#[trigger] assignments[a]).value),
        _ => false,
    }
}

/// What binding gives where the statement has no place for values: the
/// statement as it is, unless values were given or it holds a placeholder,
/// which then stands where none can be bound.
pub open spec fn bound_as_it_is(
    statement: StatementModel,
    params: Seq<PostgreSqlValueModel>,
) -> Result<StatementModel, QueryErrorModel> {
    if params.len() == 0 && !has_free_parameter(statement) {
        Ok(statement)
    } else {
        Err(QueryErrorModel::FeatureNotSupported(unsupported_binding_message()))
    }
}

/// An expression with its placeholder replaced: parameter `$k` becomes the
/// literal of the `k`-th value, counted from 1. A placeholder without a
/// value is an error; every other expression stays as it is.
pub open spec fn bound_expr(expr: ExprModel, params: Seq<PostgreSqlValueModel>) -> Result<
    ExprModel,
    QueryErrorModel,
> {
    match expr {
        ExprModel::Identifier(ident) => match placeholder_number(ident.value) {
            Some(k) => if 1 <= k <= params.len() {
                Ok(literal_of(params[k - 1]))
            } else {
                Err(
                    QueryErrorModel::InvalidParameterValue(
                        missing_parameter_message(ident.value),
                    ),
                )
            },
            None => Ok(expr),
        },
        _ => Ok(expr),
    }
}

/// A list of expressions with their placeholders replaced, or the error of
/// the first that has one.
pub open spec fn bound_exprs(exprs: Seq<ExprModel>, params: Seq<PostgreSqlValueModel>) -> Result<
    Seq<ExprModel>,
    QueryErrorModel,
>
    decreases exprs.len(),
{
    if exprs.len() == 0 {
        Ok(Seq::empty())
    } else {
        match bound_exprs(exprs.drop_last(), params) {
            Err(error) => Err(error),
            Ok(before) => match bound_expr(exprs.last(), params) {
                Err(error) => Err(error),
                Ok(expr) => Ok(before.push(expr)),
            },
        }
    }
}

/// Rows of expressions with their placeholders replaced, or the first error
/// in reading order.
pub open spec fn bound_rows(rows: Seq<Seq<ExprModel>>, params: Seq<PostgreSqlValueModel>) -> Result<
    Seq<Seq<ExprModel>>,
    QueryErrorModel,
>
    decreases rows.len(),
{
    if rows.len() == 0 {
        Ok(Seq::empty())
    } else {
        match bound_rows(rows.drop_last(), params) {
            Err(error) => Err(error),
            Ok(before) => match bound_exprs(rows.last(), params) {
                Err(error) => Err(error),
                Ok(row) => Ok(before.push(row)),
            },
        }
    }
}

/// Assignments with the placeholders of their values replaced, or the first
/// error.
pub open spec fn bound_assignments(
    assignments: Seq<AssignmentModel>,
    params: Seq<PostgreSqlValueModel>,
) -> Result<Seq<AssignmentModel>, QueryErrorModel>
    decreases assignments.len(),
{
    if assignments.len() == 0 {
        Ok(Seq::empty())
    } else {
        match bound_assignments(assignments.drop_last(), params) {
            Err(error) => Err(error),
            Ok(before) => match bound_expr(assignments.last().value, params) {
                Err(error) => Err(error),
                Ok(value) => Ok(
                    before.push(AssignmentModel { id: assignments.last().id, value }),
                ),
            },
        }
    }
}

/// A statement with its placeholders replaced by the literals of `params`,
/// or the error that ends the binding. Placeholders are replaced in the rows
/// of an `INSERT ... VALUES` and in the values of an `UPDATE`. Any other
/// statement takes no values and may hold no placeholder; it stays as it
/// is.
pub open spec fn bound_statement(
    statement: StatementModel,
    params: Seq<PostgreSqlValueModel>,
) -> Result<StatementModel, QueryErrorModel> {
    match statement {
        StatementModel::Insert { table_name, columns, source } => match source.body {
            SetExprModel::Values(rows) => match bound_rows(rows, params) {
                Err(error) => Err(error),
                Ok(bound) => Ok(
                    StatementModel::Insert {
                        table_name,
                        columns,
                        source: QueryModel {
                            ctes: source.ctes,
                            body: SetExprModel::Values(bound),
                            order_by: source.order_by,
                            limit: source.limit,
                            offset: source.offset,
                            fetch: source.fetch,
                        },
                    },
                ),
            },
            _ => bound_as_it_is(statement, params),
        },
        StatementModel::Update { table_name, assignments, selection } => match bound_assignments(
            assignments,
            params,
        ) {
            Err(error) => Err(error),
            Ok(bound) => Ok(StatementModel::Update { table_name, assignments: bound, selection }),
        },
        _ => bound_as_it_is(statement, params),
    }
}

/// An error among the first `n` expressions is the error of all of them.
pub proof fn lemma_bound_exprs_prefix_error(
    exprs: Seq<ExprModel>,
    params: Seq<PostgreSqlValueModel>,
    n: int,
)
    requires
        0 <= n <= exprs.len(),
    ensures
        bound_exprs(exprs.take(n), params) is Err ==> bound_exprs(exprs, params) == bound_exprs(
            exprs.take(n),
            params,
        ),
    decreases exprs.len() - n,
{
    if n < exprs.len() {
        assert(exprs.take(n + 1).drop_last() =~= exprs.take(n));
        lemma_bound_exprs_prefix_error(exprs, params, n + 1);
    } else {
        assert(exprs.take(n) =~= exprs);
    }
}

/// An error among the first `n` rows is the error of all of them.
pub proof fn lemma_bound_rows_prefix_error(
    rows: Seq<Seq<ExprModel>>,
    params: Seq<PostgreSqlValueModel>,
    n: int,
)
    requires
        0 <= n <= rows.len(),
    ensures
        bound_rows(rows.take(n), params) is Err ==> bound_rows(rows, params) == bound_rows(
            rows.take(n),
            params,
        ),
    decreases rows.len() - n,
{
    if n < rows.len() {
        assert(rows.take(n + 1).drop_last() =~= rows.take(n));
        lemma_bound_rows_prefix_error(rows, params, n + 1);
    } else {
        assert(rows.take(n) =~= rows);
    }
}

/// An error among the first `n` assignments is the error of all of them.
pub proof fn lemma_bound_assignments_prefix_error(
    assignments: Seq<AssignmentModel>,
    params: Seq<PostgreSqlValueModel>,
    n: int,
)
    requires
        0 <= n <= assignments.len(),
    ensures
        bound_assignments(assignments.take(n), params) is Err ==> bound_assignments(
            assignments,
            params,
        ) == bound_assignments(assignments.take(n), params),
    decreases assignments.len() - n,
{
    if n < assignments.len() {
        assert(assignments.take(n + 1).drop_last() =~= assignments.take(n));
        lemma_bound_assignments_prefix_error(assignments, params, n + 1);
    } else {
        assert(assignments.take(n) =~= assignments);
    }
}

/// The expression that stands for an integer.
fn integer_literal_from(v: i64) -> (literal: Expr)
    ensures
        literal@ == integer_literal(v as int),
{
    if v < 0 {
        Expr::Negative(u64_to_string(((-(v + 1)) as u64) + 1))
    } else {
        Expr::Value(Value::Number(u64_to_string(v as u64)))
    }
}

/// The expression that stands for a bound value.
pub fn literal_from(value: &PostgreSqlValue) -> (literal: Expr)
    ensures
        literal@ == literal_of(value@),
{
    match value {
        PostgreSqlValue::Null => Expr::Value(Value::Null),
        PostgreSqlValue::True => Expr::Value(Value::Boolean(true)),
        PostgreSqlValue::False => Expr::Value(Value::Boolean(false)),
        PostgreSqlValue::Int16(v) => integer_literal_from(*v as i64),
        PostgreSqlValue::Int32(v) => integer_literal_from(*v as i64),
        PostgreSqlValue::Int64(v) => integer_literal_from(*v),
        PostgreSqlValue::String(text) => Expr::Value(Value::SingleQuotedString(text.clone())),
    }
}

/// Whether an expression is a placeholder.
pub fn expr_is_placeholder(expr: &Expr) -> (found: bool)
    ensures
        found == is_placeholder(expr@),
{
    match expr {
        Expr::Identifier(ident) => {
            let text = ident.value.as_str();
            text.unicode_len() >= 1 && text.get_char(0) == '$' && match read_number_chars(
                text,
                1,
                0,
            ) {
                Decimal::Invalid => false,
                _ => true,
            }
        },
        _ => false,
    }
}

/// Whether a row of expressions holds a placeholder.
pub fn row_holds_placeholder(row: &Vec<Expr>) -> (found: bool)
    ensures
        found == row_has_placeholder(row.deep_view()),
{
    let mut c: usize = 0;
    while c < row.len()
        invariant
            c <= row@.len(),
            forall|k: int| 0 <= k < c ==> !is_placeholder(#[trigger] row.deep_view()[k]),
        decreases row@.len() - c,
    {
        if expr_is_placeholder(&row[c]) {
            assert(is_placeholder(row.deep_view()[c as int]));
            return true;
        }
        c += 1;
    }
    false
}

/// Whether a query holds a placeholder in an expression that it keeps.
#[verifier::loop_isolation(false)]
pub fn query_holds_placeholder(query: &Query) -> (found: bool)
    ensures
        found == query_has_placeholder(query@),
{
    match &query.body {
        SetExpr::Select(select) => {
            let mut i: usize = 0;
            while i < select.projection.len()
                invariant
                    i <= select.projection@.len(),
                    forall|k: int|
                        0 <= k < i ==> !item_is_placeholder(
                            #[trigger] select.projection.deep_view()[k],
                        ),
                decreases select.projection@.len() - i,
            {
                let held = match &select.projection[i] {
                    SelectItem::UnnamedExpr(expr) => expr_is_placeholder(expr),
                    _ => false,
                };
                if held {
                    proof {
                        let items = select@.projection;
                        assert(query@.body == SetExprModel::Select(select@));
                        assert(0 <= i < items.len() && item_is_placeholder(items[i as int]));
                        assert(projection_has_placeholder(items));
                    }
                    return true;
                }
                i += 1;
            }
            false
        },
        SetExpr::Values(rows) => {
            let mut r: usize = 0;
            while r < rows.len()
                invariant
                    r <= rows@.len(),
                    forall|k: int|
                        0 <= k < r ==> !row_has_placeholder(#[trigger] rows.deep_view()[k]),
                decreases rows@.len() - r,
            {
                if row_holds_placeholder(&rows[r]) {
                    proof {
                        let held = rows.deep_view();
                        assert(query@.body == SetExprModel::Values(held));
                        assert(0 <= r < held.len() && row_has_placeholder(held[r as int]));
                        assert(rows_have_placeholder(held));
                    }
                    return true;
                }
                r += 1;
            }
            false
        },
        SetExpr::Other(_) => false,
    }
}

/// An expression with its placeholder replaced.
pub fn bind_expr(expr: &Expr, params: &Vec<PostgreSqlValue>) -> (bound: Result<Expr, QueryError>)
    ensures
        match bound_expr(expr@, params.deep_view()) {
            Ok(expected) => bound matches Ok(found) && found@ == expected,
            Err(error) => bound matches Err(found) && found@ == error,
        },
{
    match expr {
        Expr::Identifier(ident) => {
            let text = ident.value.as_str();
            if text.unicode_len() >= 1 && text.get_char(0) == '$' {
                match read_number_chars(text, 1, params.len() as u64) {
                    Decimal::Invalid => Ok(expr.clone()),
                    Decimal::Within(k) => {
                        if k >= 1 {
                            Ok(literal_from(&params[(k - 1) as usize]))
                        } else {
                            Err(
                                QueryError::InvalidParameterValue(
                                    concat("there is no parameter ", text),
                                ),
                            )
                        }
                    },
                    Decimal::Above => Err(
                        QueryError::InvalidParameterValue(concat("there is no parameter ", text)),
                    ),
                }
            } else {
                Ok(expr.clone())
            }
        },
        _ => Ok(expr.clone()),
    }
}

/// A list of expressions with their placeholders replaced.
pub fn bind_exprs(exprs: &Vec<Expr>, params: &Vec<PostgreSqlValue>) -> (bound: Result<
    Vec<Expr>,
    QueryError,
>)
    ensures
        match bound_exprs(exprs.deep_view(), params.deep_view()) {
            Ok(expected) => bound matches Ok(found) && found.deep_view() == expected,
            Err(error) => bound matches Err(found) && found@ == error,
        },
{
    let mut bound: Vec<Expr> = Vec::new();
    assert(exprs.deep_view().take(0) =~= Seq::empty());
    assert(bound.deep_view() =~= Seq::empty());
    let mut i: usize = 0;
    while i < exprs.len()
        invariant
            i <= exprs@.len(),
            bound_exprs(exprs.deep_view().take(i as int), params.deep_view()) == Ok::<
                Seq<ExprModel>,
                QueryErrorModel,
            >(bound.deep_view()),
        decreases exprs@.len() - i,
    {
        let ghost before = bound.deep_view();
        proof {
            assert(exprs.deep_view().take(i + 1).drop_last() =~= exprs.deep_view().take(i as int));
            assert(exprs.deep_view().take(i + 1).last() == exprs@[i as int]@);
            lemma_bound_exprs_prefix_error(exprs.deep_view(), params.deep_view(), i + 1);
        }
        match bind_expr(&exprs[i], params) {
            Ok(expr) => {
                bound.push(expr);
                assert(bound.deep_view() =~= before.push(expr@));
            },
            Err(error) => {
                return Err(error);
            },
        }
        i += 1;
    }
    assert(exprs.deep_view().take(i as int) =~= exprs.deep_view());
    Ok(bound)
}

/// Rows of expressions with their placeholders replaced.
pub fn bind_rows(rows: &Vec<Vec<Expr>>, params: &Vec<PostgreSqlValue>) -> (bound: Result<
    Vec<Vec<Expr>>,
    QueryError,
>)
    ensures
        match bound_rows(rows.deep_view(), params.deep_view()) {
            Ok(expected) => bound matches Ok(found) && found.deep_view() == expected,
            Err(error) => bound matches Err(found) && found@ == error,
        },
{
    let mut bound: Vec<Vec<Expr>> = Vec::new();
    assert(rows.deep_view().take(0) =~= Seq::empty());
    assert(bound.deep_view() =~= Seq::empty());
    let mut i: usize = 0;
    while i < rows.len()
        invariant
            i <= rows@.len(),
            bound_rows(rows.deep_view().take(i as int), params.deep_view()) == Ok::<
                Seq<Seq<ExprModel>>,
                QueryErrorModel,
            >(bound.deep_view()),
        decreases rows@.len() - i,
    {
        let ghost before = bound.deep_view();
        proof {
            assert(rows.deep_view().take(i + 1).drop_last() =~= rows.deep_view().take(i as int));
            assert(rows.deep_view().take(i + 1).last() == rows@[i as int].deep_view());
            lemma_bound_rows_prefix_error(rows.deep_view(), params.deep_view(), i + 1);
        }
        match bind_exprs(&rows[i], params) {
            Ok(row) => {
                bound.push(row);
                assert(bound.deep_view() =~= before.push(row.deep_view()));
            },
            Err(error) => {
                return Err(error);
            },
        }
        i += 1;
    }
    assert(rows.deep_view().take(i as int) =~= rows.deep_view());
    Ok(bound)
}

/// Assignments with the placeholders of their values replaced.
pub fn bind_assignments(assignments: &Vec<Assignment>, params: &Vec<PostgreSqlValue>) -> (bound:
    Result<Vec<Assignment>, QueryError>)
    ensures
        match bound_assignments(assignments.deep_view(), params.deep_view()) {
            Ok(expected) => bound matches Ok(found) && found.deep_view() == expected,
            Err(error) => bound matches Err(found) && found@ == error,
        },
{
    let mut bound: Vec<Assignment> = Vec::new();
    assert(assignments.deep_view().take(0) =~= Seq::empty());
    assert(bound.deep_view() =~= Seq::empty());
    let mut i: usize = 0;
    while i < assignments.len()
        invariant
            i <= assignments@.len(),
            bound_assignments(assignments.deep_view().take(i as int), params.deep_view()) == Ok::<
                Seq<AssignmentModel>,
                QueryErrorModel,
            >(bound.deep_view()),
        decreases assignments@.len() - i,
    {
        let ghost before = bound.deep_view();
        proof {
            assert(assignments.deep_view().take(i + 1).drop_last()
                =~= assignments.deep_view().take(i as int));
            assert(assignments.deep_view().take(i + 1).last() == assignments@[i as int]@);
            lemma_bound_assignments_prefix_error(
                assignments.deep_view(),
                params.deep_view(),
                i + 1,
            );
        }
        match bind_expr(&assignments[i].value, params) {
            Ok(value) => {
                let assignment = Assignment { id: assignments[i].id.clone(), value };
                bound.push(assignment);
                assert(bound.deep_view() =~= before.push(assignment@));
            },
            Err(error) => {
                return Err(error);
            },
        }
        i += 1;
    }
    assert(assignments.deep_view().take(i as int) =~= assignments.deep_view());
    Ok(bound)
}

/// The parameter binder.
#[derive(Debug)]
pub struct ParamBinder {}

impl ParamBinder {
    pub fn new() -> Self {
        Self {  }
    }

    /// Replaces the placeholders of `stmt` by the literals of `params`. On
    /// an error the statement stays as it was, the error is sent and `Err`
    /// is returned.
    pub fn bind(
        &self,
        stmt: &mut Statement,
        params: &Vec<PostgreSqlValue>,
        sender: &mut Sender,
    ) -> (bound: Result<(), ()>)
        ensures
            match bound_statement(old(stmt)@, params.deep_view()) {
                Ok(expected) => bound is Ok && final(stmt)@ == expected && final(sender)@ == old(
                    sender,
                )@,
                Err(error) => bound is Err && final(stmt)@ == old(stmt)@ && final(sender)@ == old(
                    sender,
                )@.push(Err(error)),
            },
    {
        let outcome = match stmt {
            Statement::Insert { table_name, columns, source } => {
                match &source.body {
                    SetExpr::Values(rows) => {
                        match bind_rows(rows, params) {
                            Ok(bound) => {
                                source.body = SetExpr::Values(bound);
                                Ok(())
                            },
                            Err(error) => Err(error),
                        }
                    },
                    _ => {
                        if params.len() == 0 && !query_holds_placeholder(source) {
                            Ok(())
                        } else {
                            Err(unsupported_binding())
                        }
                    },
                }
            },
            Statement::Update { table_name, assignments, selection } => {
                match bind_assignments(assignments, params) {
                    Ok(bound) => {
                        *assignments = bound;
                        Ok(())
                    },
                    Err(error) => Err(error),
                }
            },
            Statement::Query(query) => {
                if params.len() == 0 && !query_holds_placeholder(query) {
                    Ok(())
                } else {
                    Err(unsupported_binding())
                }
            },
            _ => {
                if params.len() == 0 {
                    Ok(())
                } else {
                    Err(unsupported_binding())
                }
            },
        };
        match outcome {
            Ok(()) => Ok(()),
            Err(error) => {
                sender.send(Err(error));
                Err(())
            },
        }
    }
}

/// The error for values or a placeholder where none can be bound.
fn unsupported_binding() -> (error: QueryError)
    ensures
        error@ == QueryErrorModel::FeatureNotSupported(unsupported_binding_message()),
{
    QueryError::FeatureNotSupported("parameters cannot be bound to this statement".to_owned())
}

} // verus!
