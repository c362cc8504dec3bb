//! `INSERT`: rows of literals into one table.

use crate::ast::{Expr, ExprModel, QueryModel, SetExpr, SetExprModel, Value, ValueModel};
use crate::catalog_manager::{assign_row, assigned_row, column_names, lemma_assigned_row_len,
    CatalogManager, CatalogModel};
use crate::dml::select::{as_ints, column_indexes, missing_columns, resolve_columns};
use crate::query::plan::TableInserts;
use crate::query::process::qualified;
use crate::results::{Message, QueryError, QueryErrorModel, QueryEvent, QueryEventModel, Sender,
    SystemResult};
use crate::text::{concat, concat3};
use vstd::prelude::*;

verus! {

/// The text under which a literal is stored.
pub open spec fn datum_text(value: ValueModel) -> Seq<char> {
    match value {
        ValueModel::Number(digits) => digits,
        ValueModel::SingleQuotedString(text) => text,
        ValueModel::Boolean(b) => if b {
            "t"@
        } else {
            "f"@
        },
        ValueModel::Null => "NULL"@,
    }
}

/// The text under which an expression is stored, where it is a literal or
/// the negation of a number.
pub open spec fn literal_text(expr: ExprModel) -> Option<Seq<char>> {
    match expr {
        ExprModel::Value(value) => Some(datum_text(value)),
        ExprModel::Negative(digits) => Some("-"@ + digits),
        _ => None,
    }
}

/// The diagnostic for a row with more values than the statement has target
/// columns.
pub open spec fn too_many_values_message() -> Seq<char> {
    "INSERT has more expressions than target columns"@
}

/// A row of `width` fields that hold no value.
pub open spec fn null_row(width: nat) -> Seq<Seq<char>> {
    Seq::new(width, |p: int| "NULL"@)
}

/// For the first values of a row, the assignment of each to its target
/// column; `None` where one of them is no literal.
pub open spec fn value_assignments(exprs: Seq<ExprModel>, targets: Seq<int>) -> Option<
    Seq<(usize, Seq<char>)>,
>
    recommends
        exprs.len() <= targets.len(),
    decreases exprs.len(),
{
    if exprs.len() == 0 {
        Some(Seq::empty())
    } else {
        match value_assignments(exprs.drop_last(), targets) {
            None => None,
            Some(before) => match literal_text(exprs.last()) {
                None => None,
                Some(text) => Some(before.push((targets[exprs.len() - 1] as usize, text))),
            },
        }
    }
}

/// The row that is stored for one row of values: each value goes to its
/// target column, in order, and a column without a value holds none. A row
/// with more values than targets, or with a value that is no literal, is an
/// error.
pub open spec fn stored_row(
    raw_sql_query: Seq<char>,
    exprs: Seq<ExprModel>,
    targets: Seq<int>,
    width: nat,
) -> Result<Seq<Seq<char>>, QueryErrorModel> {
    if exprs.len() > targets.len() {
        Err(QueryErrorModel::SyntaxError(too_many_values_message()))
    } else {
        match value_assignments(exprs, targets) {
            None => Err(QueryErrorModel::FeatureNotSupported(raw_sql_query)),
            Some(assignments) => Ok(assigned_row(null_row(width), assignments)),
        }
    }
}

/// The rows that are stored for the rows of values, or the error of the
/// first row that has one.
pub open spec fn stored_rows(
    raw_sql_query: Seq<char>,
    rows: Seq<Seq<ExprModel>>,
    targets: Seq<int>,
    width: nat,
) -> Result<Seq<Seq<Seq<char>>>, QueryErrorModel>
    decreases rows.len(),
{
    if rows.len() == 0 {
        Ok(Seq::empty())
    } else {
        match stored_rows(raw_sql_query, rows.drop_last(), targets, width) {
            Err(error) => Err(error),
            Ok(before) => match stored_row(raw_sql_query, rows.last(), targets, width) {
                Err(error) => Err(error),
                Ok(row) => Ok(before.push(row)),
            },
        }
    }
}

/// The rows that an `INSERT` adds to its table under a catalog, or the
/// error that ends it. The schema is checked first, then the table, then the
/// source, which must be `VALUES`, then the column list, then the rows.
/// Without a column list the targets are the table's columns in order.
pub open spec fn rows_to_insert(
    catalog: CatalogModel,
    raw_sql_query: Seq<char>,
    table_id: (Seq<char>, Seq<char>),
    column_indices: Seq<Seq<char>>,
    input: QueryModel,
) -> Result<Seq<Seq<Seq<char>>>, QueryErrorModel> {
    match catalog.table_exists(table_id.0, table_id.1) {
        None => Err(QueryErrorModel::SchemaDoesNotExist(table_id.0)),
        Some((_, None)) => Err(
            QueryErrorModel::TableDoesNotExist(qualified(table_id.0, table_id.1)),
        ),
        Some((_, Some(_))) => match input.body {
            SetExprModel::Values(rows) => {
                let all_names = column_names(catalog.table_columns(table_id.0, table_id.1));
                if column_indices.len() == 0 {
                    stored_rows(
                        raw_sql_query,
                        rows,
                        Seq::new(all_names.len(), |p: int| p),
                        all_names.len(),
                    )
                } else if missing_columns(all_names, column_indices).len() > 0 {
                    Err(
                        QueryErrorModel::ColumnDoesNotExist(
                            missing_columns(all_names, column_indices),
                        ),
                    )
                } else {
                    stored_rows(
                        raw_sql_query,
                        rows,
                        column_indexes(all_names, column_indices),
                        all_names.len(),
                    )
                }
            },
            _ => Err(QueryErrorModel::FeatureNotSupported(raw_sql_query)),
        },
    }
}

/// The catalog after an `INSERT`.
pub open spec fn insert_catalog(
    catalog: CatalogModel,
    raw_sql_query: Seq<char>,
    table_id: (Seq<char>, Seq<char>),
    column_indices: Seq<Seq<char>>,
    input: QueryModel,
) -> CatalogModel {
    match rows_to_insert(catalog, raw_sql_query, table_id, column_indices, input) {
        Ok(rows) => catalog.insert_into(table_id.0, table_id.1, rows),
        Err(_) => catalog,
    }
}

/// The message that an `INSERT` sends.
pub open spec fn insert_message(
    catalog: CatalogModel,
    raw_sql_query: Seq<char>,
    table_id: (Seq<char>, Seq<char>),
    column_indices: Seq<Seq<char>>,
    input: QueryModel,
) -> Message {
    match rows_to_insert(catalog, raw_sql_query, table_id, column_indices, input) {
        Ok(rows) => Ok(QueryEventModel::RecordsInserted(rows.len())),
        Err(error) => Err(error),
    }
}

/// An error among the first `n` rows is the error of all of them.
pub proof fn lemma_stored_rows_prefix_error(
    raw_sql_query: Seq<char>,
    rows: Seq<Seq<ExprModel>>,
    targets: Seq<int>,
    width: nat,
    n: int,
)
    requires
        0 <= n <= rows.len(),
    ensures
        stored_rows(raw_sql_query, rows.take(n), targets, width) is Err ==> stored_rows(
            raw_sql_query,
            rows,
            targets,
            width,
        ) == stored_rows(raw_sql_query, rows.take(n), targets, width),
    decreases rows.len() - n,
{
    if n < rows.len() {
        assert(rows.take(n + 1).drop_last() =~= rows.take(n));
        lemma_stored_rows_prefix_error(raw_sql_query, rows, targets, width, n + 1);
    } else {
        assert(rows.take(n) =~= rows);
    }
}

/// A value that is no literal among the first `n` leaves the row without
/// assignments.
pub proof fn lemma_value_assignments_prefix_none(exprs: Seq<ExprModel>, targets: Seq<int>, n: int)
    requires
        0 <= n <= exprs.len(),
    ensures
        value_assignments(exprs.take(n), targets) is None ==> value_assignments(exprs, targets)
            is None,
    decreases exprs.len() - n,
{
    if n < exprs.len() {
        assert(exprs.take(n + 1).drop_last() =~= exprs.take(n));
        lemma_value_assignments_prefix_none(exprs, targets, n + 1);
    } else {
        assert(exprs.take(n) =~= exprs);
    }
}

/// Every stored row has `width` fields.
pub proof fn lemma_stored_rows_width(
    raw_sql_query: Seq<char>,
    rows: Seq<Seq<ExprModel>>,
    targets: Seq<int>,
    width: nat,
)
    requires
        stored_rows(raw_sql_query, rows, targets, width) is Ok,
    ensures
        stored_rows(raw_sql_query, rows, targets, width)->Ok_0.len() == rows.len(),
        forall|r: int|
            0 <= r < rows.len() ==> (#[trigger] stored_rows(
                raw_sql_query,
                rows,
                targets,
                width,
            )->Ok_0[r]).len() == width,
    decreases rows.len(),
{
    if rows.len() > 0 {
        lemma_stored_rows_width(raw_sql_query, rows.drop_last(), targets, width);
        let assignments = value_assignments(rows.last(), targets)->Some_0;
        lemma_assigned_row_len(null_row(width), assignments);
    }
}

/// The text under which a literal is stored.
pub fn datum_string(value: &Value) -> (text: String)
    ensures
        text@ == datum_text(value@),
{
    match value {
        Value::Number(digits) => digits.clone(),
        Value::SingleQuotedString(text) => text.clone(),
        Value::Boolean(b) => if *b {
            "t".to_owned()
        } else {
            "f".to_owned()
        },
        Value::Null => "NULL".to_owned(),
    }
}

/// The text under which an expression is stored, where it is a literal or
/// the negation of a number.
pub fn literal_string(expr: &Expr) -> (text: Option<String>)
    ensures
        text is Some <==> literal_text(expr@) is Some,
        text matches Some(found) ==> literal_text(expr@) == Some(found@),
{
    match expr {
        Expr::Value(value) => Some(datum_string(value)),
        Expr::Negative(digits) => Some(concat("-", digits.as_str())),
        _ => None,
    }
}

/// A row of `width` fields that hold no value.
fn make_null_row(width: usize) -> (row: Vec<String>)
    ensures
        row.deep_view() == null_row(width as nat),
{
    let mut row: Vec<String> = Vec::new();
    while row.len() < width
        invariant
            row@.len() <= width,
            forall|p: int| 0 <= p < row@.len() ==> row@[p]@ == "NULL"@,
        decreases width - row@.len(),
    {
        row.push("NULL".to_owned());
    }
    assert(row.deep_view() =~= null_row(width as nat));
    row
}

/// The row to store for one row of values, or the error of the row.
fn make_stored_row(
    raw_sql_query: &str,
    exprs: &Vec<Expr>,
    targets: &Vec<usize>,
    width: usize,
) -> (made: Result<Vec<String>, QueryError>)
    ensures
        match stored_row(raw_sql_query@, exprs.deep_view(), as_ints(targets@), width as nat) {
            Ok(row) => made matches Ok(found) && found.deep_view() == row,
            Err(error) => made matches Err(found) && found@ == error,
        },
{
    if exprs.len() > targets.len() {
        return Err(
            QueryError::SyntaxError("INSERT has more expressions than target columns".to_owned()),
        );
    }
    let mut assignments: Vec<(usize, String)> = Vec::new();
    assert(exprs.deep_view().take(0) =~= Seq::empty());
    assert(assignments.deep_view() =~= Seq::empty());
    let mut j: usize = 0;
    while j < exprs.len()
        invariant
            j <= exprs@.len(),
            exprs@.len() <= targets@.len(),
            value_assignments(exprs.deep_view().take(j as int), as_ints(targets@)) == Some(
                assignments.deep_view(),
            ),
        decreases exprs@.len() - j,
    {
        let ghost before = assignments.deep_view();
        proof {
            assert(exprs.deep_view().take(j + 1).drop_last() =~= exprs.deep_view().take(j as int));
            assert(exprs.deep_view().take(j + 1).last() == exprs@[j as int]@);
            lemma_value_assignments_prefix_none(exprs.deep_view(), as_ints(targets@), j + 1);
        }
        match literal_string(&exprs[j]) {
            Some(text) => {
                assignments.push((targets[j], text));
                assert(assignments.deep_view() =~= before.push((targets@[j as int], text@)));
            },
            None => {
                return Err(QueryError::FeatureNotSupported(raw_sql_query.to_owned()));
            },
        }
        j += 1;
    }
    assert(exprs.deep_view().take(j as int) =~= exprs.deep_view());
    let blank = make_null_row(width);
    Ok(assign_row(&blank, &assignments))
}

/// The command that inserts rows.
pub struct InsertCommand<'ic> {
    raw_sql_query: &'ic str,
    table_inserts: TableInserts,
}

impl<'ic> InsertCommand<'ic> {
    pub fn new(raw_sql_query: &'ic str, table_inserts: TableInserts) -> (command: InsertCommand<
        'ic,
    >)
        ensures
            command.raw_sql_query() == raw_sql_query@,
            command.table_id() == table_inserts.table_id@,
            command.column_indices() == table_inserts.column_indices.deep_view(),
            command.input() == table_inserts.input@,
    {
        InsertCommand { raw_sql_query, table_inserts }
    }

    /// The text of the statement, for diagnostics.
    pub closed spec fn raw_sql_query(&self) -> Seq<char> {
        self.raw_sql_query@
    }

    /// The schema's name and the name of the target table.
    pub closed spec fn table_id(&self) -> (Seq<char>, Seq<char>) {
        self.table_inserts.table_id@
    }

    /// The column list of the statement.
    pub closed spec fn column_indices(&self) -> Seq<Seq<char>> {
        self.table_inserts.column_indices.deep_view()
    }

    /// The source of the rows.
    pub closed spec fn input(&self) -> QueryModel {
        self.table_inserts.input@
    }

    /// Adds the rows to the table and sends `RecordsInserted` with their
    /// number; on an error nothing changes and the error is sent.
    #[verifier::loop_isolation(false)]
    pub fn execute(&self, storage: &mut CatalogManager, sender: &mut Sender) -> (done:
        SystemResult<()>)
        ensures
            done is Ok,
            final(storage)@ == insert_catalog(
                old(storage)@,
                self.raw_sql_query(),
                self.table_id(),
                self.column_indices(),
                self.input(),
            ),
            final(sender)@ == old(sender)@.push(
                insert_message(
                    old(storage)@,
                    self.raw_sql_query(),
                    self.table_id(),
                    self.column_indices(),
                    self.input(),
                ),
            ),
    {
        let schema_name = self.table_inserts.table_id.schema_name();
        let table_name = self.table_inserts.table_id.name();
        match storage.table_exists(schema_name, table_name) {
            None => {
                sender.send(Err(QueryError::SchemaDoesNotExist(schema_name.to_owned())));
                return Ok(());
            },
            Some((_, None)) => {
                sender.send(
                    Err(QueryError::TableDoesNotExist(concat3(schema_name, ".", table_name))),
                );
                return Ok(());
            },
            Some((_, Some(_))) => {},
        }
        let values = match &self.table_inserts.input.body {
            SetExpr::Values(values) => values,
            _ => {
                sender.send(Err(QueryError::FeatureNotSupported(self.raw_sql_query.to_owned())));
                return Ok(());
            },
        };
        let all_columns = storage.table_columns(schema_name, table_name);
        let width = all_columns.len();
        let ghost all_names = column_names(all_columns.deep_view());
        let targets = if self.table_inserts.column_indices.is_empty() {
            let mut targets: Vec<usize> = Vec::new();
            while targets.len() < width
                invariant
                    targets@.len() <= width,
                    forall|p: int| 0 <= p < targets@.len() ==> targets@[p] == p,
                decreases width - targets@.len(),
            {
                targets.push(targets.len());
            }
            assert(as_ints(targets@) =~= Seq::new(all_names.len(), |p: int| p));
            targets
        } else {
            let resolution = resolve_columns(&all_columns, &self.table_inserts.column_indices);
            if !resolution.missing.is_empty() {
                sender.send(Err(QueryError::ColumnDoesNotExist(resolution.missing)));
                return Ok(());
            }
            resolution.indexes
        };
        let mut rows: Vec<Vec<String>> = Vec::new();
        assert(values.deep_view().take(0) =~= Seq::empty());
        assert(rows.deep_view() =~= Seq::empty());
        let mut r: usize = 0;
        while r < values.len()
            invariant
                r <= values@.len(),
                sender@ == old(sender)@,
                storage@ == old(storage)@,
                stored_rows(
                    self.raw_sql_query(),
                    values.deep_view().take(r as int),
                    as_ints(targets@),
                    width as nat,
                ) == Ok::<Seq<Seq<Seq<char>>>, QueryErrorModel>(rows.deep_view()),
            decreases values@.len() - r,
        {
            let ghost before = rows.deep_view();
            proof {
                assert(values.deep_view().take(r + 1).drop_last() =~= values.deep_view().take(
                    r as int,
                ));
                assert(values.deep_view().take(r + 1).last() == values@[r as int].deep_view());
                lemma_stored_rows_prefix_error(
                    self.raw_sql_query(),
                    values.deep_view(),
                    as_ints(targets@),
                    width as nat,
                    r + 1,
                );
            }
            match make_stored_row(self.raw_sql_query, &values[r], &targets, width) {
                Ok(row) => {
                    rows.push(row);
                    assert(rows.deep_view() =~= before.push(row.deep_view()));
                },
                Err(error) => {
                    sender.send(Err(error));
                    return Ok(());
                },
            }
            r += 1;
        }
        proof {
            assert(values.deep_view().take(r as int) =~= values.deep_view());
            lemma_stored_rows_width(
                self.raw_sql_query(),
                values.deep_view(),
                as_ints(targets@),
                width as nat,
            );
        }
        let inserted = storage.insert_into(schema_name, table_name, rows);
        sender.send(Ok(QueryEvent::RecordsInserted(inserted.unwrap())));
        Ok(())
    }
}

} // verus!
