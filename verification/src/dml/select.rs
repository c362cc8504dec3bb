//! `SELECT`: the columns of one table, by name or all of them, from every
//! row of the table.

use crate::ast::{Expr, ExprModel, Query, QueryModel, SelectItem, SelectItemModel, SetExpr,
    SetExprModel, TableFactor, TableFactorModel};
use crate::catalog_manager::{column_names, CatalogManager, CatalogModel};
use crate::query::process::qualified;
use crate::results::{Description, DescriptionModel, Message, QueryError, QueryErrorModel,
    QueryEvent, QueryEventModel, Sender, SystemError, SystemResult};
use crate::sql_types::protocol_type;
use crate::text::{concat3, lemma_position_found, lemma_position_missing, position};
use crate::{ColumnDefinition, ColumnDefinitionModel};
use vstd::prelude::*;

verus! {

/// What a `SELECT` reads: a table and the names of the selected columns, in
/// selection order.
pub struct SelectInput {
    pub schema_name: String,
    pub table_name: String,
    pub selected_columns: Vec<String>,
}

/// The mathematical value of a [`SelectInput`].
pub struct SelectInputModel {
    pub schema_name: Seq<char>,
    pub table_name: Seq<char>,
    pub selected_columns: Seq<Seq<char>>,
}

impl View for SelectInput {
    type V = SelectInputModel;

    open spec fn view(&self) -> SelectInputModel {
        SelectInputModel {
            schema_name: self.schema_name@,
            table_name: self.table_name@,
            selected_columns: self.selected_columns.deep_view(),
        }
    }
}

/// The column names that one projection item selects from a table with the
/// columns `all_columns`: `*` selects all in catalog order, a bare
/// identifier selects itself, and any other item is not supported.
pub open spec fn item_columns(
    all_columns: Seq<ColumnDefinitionModel>,
    item: SelectItemModel,
) -> Option<Seq<Seq<char>>> {
    match item {
        SelectItemModel::Wildcard => Some(column_names(all_columns)),
        SelectItemModel::UnnamedExpr(ExprModel::Identifier(ident)) => Some(seq![ident.value]),
        _ => None,
    }
}

/// The column names that a projection selects, in selection order; `None`
/// where an item is not supported.
pub open spec fn selected_columns(
    all_columns: Seq<ColumnDefinitionModel>,
    projection: Seq<SelectItemModel>,
) -> Option<Seq<Seq<char>>>
    decreases projection.len(),
{
    if projection.len() == 0 {
        Some(Seq::empty())
    } else {
        match selected_columns(all_columns, projection.drop_last()) {
            None => None,
            Some(before) => match item_columns(all_columns, projection.last()) {
                None => None,
                Some(names) => Some(before + names),
            },
        }
    }
}

/// The table that a query reads, where the engine supports its shape: a
/// plain `SELECT` from exactly one table without joins, addressed by its
/// schema and its name.
pub open spec fn selected_table(query: QueryModel) -> Option<(Seq<char>, Seq<char>)> {
    match query.body {
        SetExprModel::Select(select) => if select.from.len() == 1 && select.from[0].joins.len()
            == 0 {
            match select.from[0].relation {
                TableFactorModel::Table { name } => if name.len() == 2 {
                    Some((name[0], name[1]))
                } else {
                    None
                },
                _ => None,
            }
        } else {
            None
        },
        _ => None,
    }
}

/// What a query selects under a catalog, or the error that ends it: the
/// shape is checked first, then the schema, then the table, then the
/// projection.
pub open spec fn select_input(
    catalog: CatalogModel,
    raw_sql_query: Seq<char>,
    query: QueryModel,
) -> Result<SelectInputModel, QueryErrorModel> {
    match selected_table(query) {
        None => Err(QueryErrorModel::FeatureNotSupported(raw_sql_query)),
        Some((schema, table)) => match catalog.table_exists(schema, table) {
            None => Err(QueryErrorModel::SchemaDoesNotExist(schema)),
            Some((_, None)) => Err(QueryErrorModel::TableDoesNotExist(qualified(schema, table))),
            Some((_, Some(_))) => match selected_columns(
                catalog.table_columns(schema, table),
                query.body->Select_0.projection,
            ) {
                None => Err(QueryErrorModel::FeatureNotSupported(raw_sql_query)),
                Some(names) => Ok(
                    SelectInputModel {
                        schema_name: schema,
                        table_name: table,
                        selected_columns: names,
                    },
                ),
            },
        },
    }
}

/// Whether a name is no column of a table with the columns `all_names`.
pub open spec fn is_missing_from(all_names: Seq<Seq<char>>) -> spec_fn(Seq<char>) -> bool {
    |name: Seq<char>| position(all_names, name) is None
}

/// The index of the first column of a name among the columns `all_names`.
pub open spec fn position_in(all_names: Seq<Seq<char>>) -> spec_fn(Seq<char>) -> Option<int> {
    |name: Seq<char>| position(all_names, name)
}

/// Those of the `selected` names that are no column of the table, in
/// selection order.
pub open spec fn missing_columns(all_names: Seq<Seq<char>>, selected: Seq<Seq<char>>) -> Seq<
    Seq<char>,
> {
    selected.filter(is_missing_from(all_names))
}

/// For each of the `selected` names that is a column of the table, in
/// selection order, the index of that column in the physical row.
pub open spec fn column_indexes(all_names: Seq<Seq<char>>, selected: Seq<Seq<char>>) -> Seq<int> {
    selected.filter_map(position_in(all_names))
}

/// The description of the columns at `indexes`: each with its name and the
/// protocol type of its type.
pub open spec fn description_of(
    all_columns: Seq<ColumnDefinitionModel>,
    indexes: Seq<int>,
) -> DescriptionModel {
    Seq::new(
        indexes.len(),
        |j: int| (all_columns[indexes[j]].name, protocol_type(all_columns[indexes[j]].sql_type)),
    )
}

/// The field of a row at an index; none where the index is outside the row.
pub open spec fn field_of(row: Seq<Seq<char>>) -> spec_fn(int) -> Option<Seq<char>> {
    |index: int|
        if 0 <= index < row.len() {
            Some(row[index])
        } else {
            None
        }
}

/// The fields of a physical row at `indexes`, in that order; an index
/// outside the row gives no field.
pub open spec fn projected_row(row: Seq<Seq<char>>, indexes: Seq<int>) -> Seq<Seq<char>> {
    indexes.filter_map(field_of(row))
}

/// Every row projected to the fields at `indexes`.
pub open spec fn projected_rows(rows: Seq<Seq<Seq<char>>>, indexes: Seq<int>) -> Seq<
    Seq<Seq<char>>,
> {
    Seq::new(rows.len(), |r: int| projected_row(rows[r], indexes))
}

/// How the missing columns grow with the selected names: the last name is
/// added where it is no column of the table.
pub proof fn lemma_missing_columns_step(all_names: Seq<Seq<char>>, selected: Seq<Seq<char>>)
    requires
        selected.len() > 0,
    ensures
        missing_columns(all_names, selected) == if position(all_names, selected.last()) is None {
            missing_columns(all_names, selected.drop_last()).push(selected.last())
        } else {
            missing_columns(all_names, selected.drop_last())
        },
{
    reveal(Seq::filter);
}

/// How the column indexes grow with the selected names: the position of
/// the last name is added where it is a column of the table.
pub proof fn lemma_column_indexes_step(all_names: Seq<Seq<char>>, selected: Seq<Seq<char>>)
    requires
        selected.len() > 0,
    ensures
        column_indexes(all_names, selected) == match position(all_names, selected.last()) {
            Some(index) => column_indexes(all_names, selected.drop_last()).push(index),
            None => column_indexes(all_names, selected.drop_last()),
        },
{
    match position(all_names, selected.last()) {
        Some(index) => {
            assert(column_indexes(all_names, selected.drop_last()) + seq![index]
                =~= column_indexes(all_names, selected.drop_last()).push(index));
        },
        None => {},
    }
}

/// How a projected row grows with the indexes: the field at the last index
/// is added where the index lies inside the row.
pub proof fn lemma_projected_row_step(row: Seq<Seq<char>>, indexes: Seq<int>)
    requires
        indexes.len() > 0,
    ensures
        projected_row(row, indexes) == if 0 <= indexes.last() < row.len() {
            projected_row(row, indexes.drop_last()).push(row[indexes.last()])
        } else {
            projected_row(row, indexes.drop_last())
        },
{
    if 0 <= indexes.last() < row.len() {
        assert(projected_row(row, indexes.drop_last()) + seq![row[indexes.last()]]
            =~= projected_row(row, indexes.drop_last()).push(row[indexes.last()]));
    }
}

/// The row description of a query under a catalog, or the error that ends
/// the describing.
pub open spec fn description_for(
    catalog: CatalogModel,
    raw_sql_query: Seq<char>,
    query: QueryModel,
) -> Result<DescriptionModel, QueryErrorModel> {
    match select_input(catalog, raw_sql_query, query) {
        Err(error) => Err(error),
        Ok(input) => {
            let all_columns = catalog.table_columns(input.schema_name, input.table_name);
            let all_names = column_names(all_columns);
            let missing = missing_columns(all_names, input.selected_columns);
            if missing.len() > 0 {
                Err(QueryErrorModel::ColumnDoesNotExist(missing))
            } else {
                Ok(description_of(all_columns, column_indexes(all_names, input.selected_columns)))
            }
        },
    }
}

/// The one message that executing a query under a catalog sends: the
/// selected records, or the error that ends the query.
pub open spec fn select_message(
    catalog: CatalogModel,
    raw_sql_query: Seq<char>,
    query: QueryModel,
) -> Message {
    match select_input(catalog, raw_sql_query, query) {
        Err(error) => Err(error),
        Ok(input) => {
            let all_columns = catalog.table_columns(input.schema_name, input.table_name);
            let all_names = column_names(all_columns);
            let missing = missing_columns(all_names, input.selected_columns);
            if missing.len() > 0 {
                Err(QueryErrorModel::ColumnDoesNotExist(missing))
            } else {
                let indexes = column_indexes(all_names, input.selected_columns);
                Ok(
                    QueryEventModel::RecordsSelected(
                        description_of(all_columns, indexes),
                        projected_rows(
                            catalog.full_scan(input.schema_name, input.table_name),
                            indexes,
                        ),
                    ),
                )
            }
        },
    }
}

/// The diagnostic of the system error that a failed check returns.
pub open spec fn check_failure_text(error: QueryErrorModel) -> Seq<char> {
    match error {
        QueryErrorModel::SchemaDoesNotExist(_) => "Schema Does Not Exist"@,
        QueryErrorModel::TableDoesNotExist(_) => "Table Does Not Exist"@,
        QueryErrorModel::ColumnDoesNotExist(_) => "Column Does Not Exist"@,
        _ => "Feature Not Supported"@,
    }
}

/// An unsupported item among the first `n` makes the projection unsupported.
pub proof fn lemma_selected_columns_prefix_none(
    all_columns: Seq<ColumnDefinitionModel>,
    projection: Seq<SelectItemModel>,
    n: int,
)
    requires
        0 <= n <= projection.len(),
    ensures
        selected_columns(all_columns, projection.take(n)) is None ==> selected_columns(
            all_columns,
            projection,
        ) is None,
    decreases projection.len() - n,
{
    if n < projection.len() {
        assert(projection.take(n + 1).drop_last() =~= projection.take(n));
        lemma_selected_columns_prefix_none(all_columns, projection, n + 1);
    } else {
        assert(projection.take(n) =~= projection);
    }
}

/// The integers that a list of machine indexes stands for.
pub open spec fn as_ints(indexes: Seq<usize>) -> Seq<int> {
    Seq::new(indexes.len(), |j: int| indexes[j] as int)
}

/// The index of the first column of that name.
pub fn find_column(all_columns: &Vec<ColumnDefinition>, name: &str) -> (found: Option<usize>)
    ensures
        found matches Some(i) ==> i < all_columns@.len() && position(
            column_names(all_columns.deep_view()),
            name@,
        ) == Some(i as int),
        found is None ==> position(column_names(all_columns.deep_view()), name@) is None,
{
    let mut i: usize = 0;
    while i < all_columns.len()
        invariant
            i <= all_columns@.len(),
            forall|j: int| 0 <= j < i ==> column_names(all_columns.deep_view())[j] != name@,
        decreases all_columns@.len() - i,
    {
        if all_columns[i].has_name(name) {
            proof {
                lemma_position_found(column_names(all_columns.deep_view()), name@, i as int);
            }
            return Some(i);
        }
        i += 1;
    }
    proof {
        lemma_position_missing(column_names(all_columns.deep_view()), name@);
    }
    None
}

/// The fields of a row at the given indexes, in that order.
pub fn project_row(row: &Vec<String>, indexes: &Vec<usize>) -> (projected: Vec<String>)
    ensures
        projected.deep_view() == projected_row(row.deep_view(), as_ints(indexes@)),
{
    let mut projected: Vec<String> = Vec::new();
    assert(as_ints(indexes@).take(0) =~= Seq::empty());
    assert(projected.deep_view() =~= projected_row(row.deep_view(), Seq::empty()));
    let mut j: usize = 0;
    while j < indexes.len()
        invariant
            j <= indexes@.len(),
            projected.deep_view() == projected_row(
                row.deep_view(),
                as_ints(indexes@).take(j as int),
            ),
        decreases indexes@.len() - j,
    {
        let ghost before = projected.deep_view();
        proof {
            assert(as_ints(indexes@).take(j + 1).drop_last() =~= as_ints(indexes@).take(j as int));
            lemma_projected_row_step(row.deep_view(), as_ints(indexes@).take(j + 1));
        }
        let origin = indexes[j];
        if origin < row.len() {
            projected.push(row[origin].clone());
            assert(projected.deep_view() =~= before.push(row@[origin as int]@));
        }
        j += 1;
    }
    assert(as_ints(indexes@).take(j as int) =~= as_ints(indexes@));
    projected
}

/// The columns that were selected and found, and the names that were
/// selected and not found.
pub struct Resolution {
    /// The index of each found column in the physical row.
    pub indexes: Vec<usize>,
    /// The name and protocol type of each found column.
    pub description: Description,
    /// The names that are no column of the table.
    pub missing: Vec<String>,
}

/// Resolves the selected names against the columns of the table.
pub fn resolve_columns(all_columns: &Vec<ColumnDefinition>, selected: &Vec<String>) -> (resolution:
    Resolution)
    ensures
        as_ints(resolution.indexes@) == column_indexes(
            column_names(all_columns.deep_view()),
            selected.deep_view(),
        ),
        forall|j: int|
            0 <= j < resolution.indexes@.len() ==> (#[trigger] resolution.indexes@[j])
                < all_columns@.len(),
        resolution.description.deep_view() == description_of(
            all_columns.deep_view(),
            as_ints(resolution.indexes@),
        ),
        resolution.missing.deep_view() == missing_columns(
            column_names(all_columns.deep_view()),
            selected.deep_view(),
        ),
{
    let ghost all_names = column_names(all_columns.deep_view());
    let mut indexes: Vec<usize> = Vec::new();
    let mut description: Description = Vec::new();
    let mut missing: Vec<String> = Vec::new();
    proof {
        reveal(Seq::filter);
        assert(selected.deep_view().take(0) =~= Seq::empty());
        assert(as_ints(indexes@) =~= column_indexes(all_names, Seq::empty()));
        assert(description.deep_view() =~= Seq::empty());
        assert(missing.deep_view() =~= missing_columns(all_names, Seq::empty()));
    }
    let mut i: usize = 0;
    while i < selected.len()
        invariant
            i <= selected@.len(),
            all_names == column_names(all_columns.deep_view()),
            forall|j: int|
                0 <= j < indexes@.len() ==> (#[trigger] indexes@[j]) < all_columns@.len(),
            as_ints(indexes@) == column_indexes(all_names, selected.deep_view().take(i as int)),
            description.deep_view() == description_of(
                all_columns.deep_view(),
                as_ints(indexes@),
            ),
            missing.deep_view() == missing_columns(all_names, selected.deep_view().take(i as int)),
        decreases selected@.len() - i,
    {
        let ghost next = selected.deep_view().take(i + 1);
        let ghost old_indexes = as_ints(indexes@);
        let ghost old_description = description.deep_view();
        let ghost old_missing = missing.deep_view();
        proof {
            assert(next.drop_last() =~= selected.deep_view().take(i as int));
            assert(next.last() == selected@[i as int]@);
            lemma_missing_columns_step(all_names, next);
            lemma_column_indexes_step(all_names, next);
        }
        match find_column(all_columns, selected[i].as_str()) {
            Some(index) => {
                indexes.push(index);
                description.push(
                    (all_columns[index].name(), all_columns[index].sql_type().to_protocol_type()),
                );
                proof {
                    let column = all_columns.deep_view()[index as int];
                    assert(column == all_columns@[index as int]@);
                    assert(as_ints(indexes@) =~= old_indexes.push(index as int));
                    assert(description.deep_view() =~= old_description.push(
                        (column.name, protocol_type(column.sql_type)),
                    ));
                    assert(description.deep_view() =~= description_of(
                        all_columns.deep_view(),
                        as_ints(indexes@),
                    ));
                }
            },
            None => {
                missing.push(selected[i].clone());
                assert(missing.deep_view() =~= old_missing.push(selected@[i as int]@));
            },
        }
        i += 1;
    }
    assert(selected.deep_view().take(i as int) =~= selected.deep_view());
    Resolution { indexes, description, missing }
}

/// A `SELECT` to describe or to execute.
pub struct SelectCommand<'sc> {
    raw_sql_query: &'sc str,
    query: &'sc Query,
}

impl<'sc> SelectCommand<'sc> {
    pub fn new(raw_sql_query: &'sc str, query: &'sc Query) -> (command: SelectCommand<'sc>)
        ensures
            command.raw_sql_query()@ == raw_sql_query@,
            command.query()@ == query@,
    {
        SelectCommand { raw_sql_query, query }
    }

    /// The text of the statement, for diagnostics.
    pub closed spec fn raw_sql_query(&self) -> &str {
        self.raw_sql_query
    }

    /// The query.
    pub closed spec fn query(&self) -> &Query {
        self.query
    }

    /// The row description of the query. Where the query cannot be
    /// described, the error is sent and a failed check is returned.
    pub fn describe(&self, storage: &CatalogManager, sender: &mut Sender) -> (described:
        SystemResult<Description>)
        ensures
            match description_for(storage@, self.raw_sql_query()@, self.query()@) {
                Ok(description) => described matches Ok(found) && found.deep_view() == description
                    && final(sender)@ == old(sender)@,
                Err(error) => described matches Err(failure) && failure@ == check_failure_text(
                    error,
                ) && final(sender)@ == old(sender)@.push(Err(error)),
            },
    {
        let input = self.parse_select_input(storage, sender)?;
        let all_columns = storage.table_columns(
            input.schema_name.as_str(),
            input.table_name.as_str(),
        );
        let resolution = resolve_columns(&all_columns, &input.selected_columns);
        if !resolution.missing.is_empty() {
            sender.send(Err(QueryError::ColumnDoesNotExist(resolution.missing)));
            return Err(SystemError::runtime_check_failure("Column Does Not Exist".to_owned()));
        }
        Ok(resolution.description)
    }

    /// Sends the selected records, or the error that ends the query. The
    /// request goes on either way.
    pub fn execute(&self, storage: &CatalogManager, sender: &mut Sender) -> (done: SystemResult<
        (),
    >)
        ensures
            done is Ok,
            final(sender)@ == old(sender)@.push(
                select_message(storage@, self.raw_sql_query()@, self.query()@),
            ),
    {
        let input = match self.parse_select_input(storage, sender) {
            Ok(input) => input,
            Err(_) => {
                return Ok(());
            },
        };
        let records = storage.full_scan(input.schema_name.as_str(), input.table_name.as_str());
        let all_columns = storage.table_columns(
            input.schema_name.as_str(),
            input.table_name.as_str(),
        );
        let resolution = resolve_columns(&all_columns, &input.selected_columns);
        if !resolution.missing.is_empty() {
            sender.send(Err(QueryError::ColumnDoesNotExist(resolution.missing)));
            return Ok(());
        }
        let mut values: Vec<Vec<String>> = Vec::new();
        let mut r: usize = 0;
        while r < records.len()
            invariant
                r <= records@.len(),
                values@.len() == r,
                forall|k: int|
                    0 <= k < r ==> (#[trigger] values@[k]).deep_view() == projected_row(
                        records@[k].deep_view(),
                        as_ints(resolution.indexes@),
                    ),
            decreases records@.len() - r,
        {
            values.push(project_row(&records[r], &resolution.indexes));
            r += 1;
        }
        assert(values.deep_view() =~= projected_rows(
            records.deep_view(),
            as_ints(resolution.indexes@),
        ));
        sender.send(Ok(QueryEvent::RecordsSelected(resolution.description, values)));
        Ok(())
    }

    /// What the query selects. Where the engine cannot run the query, the
    /// error is sent and a failed check is returned.
    #[verifier::loop_isolation(false)]
    fn parse_select_input(&self, storage: &CatalogManager, sender: &mut Sender) -> (parsed:
        SystemResult<SelectInput>)
        ensures
            match select_input(storage@, self.raw_sql_query()@, self.query()@) {
                Ok(input) => parsed matches Ok(found) && found@ == input && final(sender)@ == old(
                    sender,
                )@,
                Err(error) => parsed matches Err(failure) && failure@ == check_failure_text(error)
                    && final(sender)@ == old(sender)@.push(Err(error)),
            },
    {
        let select = match &self.query.body {
            SetExpr::Select(select) => select,
            _ => {
                sender.send(Err(QueryError::FeatureNotSupported(self.raw_sql_query.to_owned())));
                return Err(SystemError::runtime_check_failure("Feature Not Supported".to_owned()));
            },
        };
        if select.from.len() != 1 || select.from[0].joins.len() != 0 {
            sender.send(Err(QueryError::FeatureNotSupported(self.raw_sql_query.to_owned())));
            return Err(SystemError::runtime_check_failure("Feature Not Supported".to_owned()));
        }
        let (schema_name, table_name) = match &select.from[0].relation {
            TableFactor::Table { name } if name.0.len() == 2 => (
                name.0[0].clone(),
                name.0[1].clone(),
            ),
            _ => {
                sender.send(Err(QueryError::FeatureNotSupported(self.raw_sql_query.to_owned())));
                return Err(SystemError::runtime_check_failure("Feature Not Supported".to_owned()));
            },
        };
        match storage.table_exists(schema_name.as_str(), table_name.as_str()) {
            None => {
                sender.send(Err(QueryError::SchemaDoesNotExist(schema_name)));
                Err(SystemError::runtime_check_failure("Schema Does Not Exist".to_owned()))
            },
            Some((_, None)) => {
                sender.send(
                    Err(
                        QueryError::TableDoesNotExist(
                            concat3(schema_name.as_str(), ".", table_name.as_str()),
                        ),
                    ),
                );
                Err(SystemError::runtime_check_failure("Table Does Not Exist".to_owned()))
            },
            Some((_, Some(_))) => {
                let all_columns = storage.table_columns(schema_name.as_str(), table_name.as_str());
                let mut columns: Vec<String> = Vec::new();
                assert(select.projection.deep_view().take(0) =~= Seq::empty());
                assert(columns.deep_view() =~= Seq::empty());
                let mut i: usize = 0;
                while i < select.projection.len()
                    invariant
                        i <= select.projection@.len(),
                        sender@ == old(sender)@,
                        selected_columns(
                            all_columns.deep_view(),
                            select.projection.deep_view().take(i as int),
                        ) == Some(columns.deep_view()),
                    decreases select.projection@.len() - i,
                {
                    let ghost next = select.projection.deep_view().take(i + 1);
                    let ghost before = columns.deep_view();
                    proof {
                        assert(next.drop_last() =~= select.projection.deep_view().take(i as int));
                        assert(next.last() == select.projection@[i as int]@);
                        lemma_selected_columns_prefix_none(
                            all_columns.deep_view(),
                            select.projection.deep_view(),
                            i + 1,
                        );
                    }
                    match &select.projection[i] {
                        SelectItem::Wildcard => {
                            let mut c: usize = 0;
                            while c < all_columns.len()
                                invariant
                                    c <= all_columns@.len(),
                                    columns.deep_view() == before + column_names(
                                        all_columns.deep_view(),
                                    ).take(c as int),
                                decreases all_columns@.len() - c,
                            {
                                let ghost so_far = columns.deep_view();
                                columns.push(all_columns[c].name());
                                assert(columns.deep_view() =~= so_far.push(
                                    all_columns@[c as int]@.name,
                                ));
                                c += 1;
                                assert(columns.deep_view() =~= before + column_names(
                                    all_columns.deep_view(),
                                ).take(c as int));
                            }
                            assert(column_names(all_columns.deep_view()).take(c as int)
                                =~= column_names(all_columns.deep_view()));
                        },
                        SelectItem::UnnamedExpr(Expr::Identifier(ident)) => {
                            columns.push(ident.value.clone());
                            assert(columns.deep_view() =~= before + seq![ident@.value]);
                        },
                        _ => {
                            sender.send(
                                Err(QueryError::FeatureNotSupported(self.raw_sql_query.to_owned())),
                            );
                            return Err(
                                SystemError::runtime_check_failure(
                                    "Feature Not Supported".to_owned(),
                                ),
                            );
                        },
                    }
                    i += 1;
                }
                assert(select.projection.deep_view().take(i as int)
                    =~= select.projection.deep_view());
                Ok(SelectInput { schema_name, table_name, selected_columns: columns })
            },
        }
    }
}

/// Where every selected name is a column, each has its index: there are as
/// many indexes as selected names, and the index of a name is the position
/// of the first column of that name.
pub proof fn lemma_column_indexes(all_names: Seq<Seq<char>>, selected: Seq<Seq<char>>)
    requires
        missing_columns(all_names, selected).len() == 0,
    ensures
        column_indexes(all_names, selected).len() == selected.len(),
        forall|j: int|
            0 <= j < selected.len() ==> position(all_names, #[trigger] selected[j]) == Some(
                column_indexes(all_names, selected)[j],
            ),
    decreases selected.len(),
{
    if selected.len() > 0 {
        let rest = selected.drop_last();
        lemma_missing_columns_step(all_names, selected);
        lemma_column_indexes_step(all_names, selected);
        lemma_column_indexes(all_names, rest);
        assert forall|j: int| 0 <= j < selected.len() implies position(
            all_names,
            #[trigger] selected[j],
        ) == Some(column_indexes(all_names, selected)[j]) by {
            if j < rest.len() {
                assert(selected[j] == rest[j]);
            }
        }
    }
}

/// A row projected to indexes that all lie inside it has one field for each
/// index: the field of the row at that index.
pub proof fn lemma_projected_row(row: Seq<Seq<char>>, indexes: Seq<int>)
    requires
        forall|j: int| 0 <= j < indexes.len() ==> 0 <= #[trigger] indexes[j] < row.len(),
    ensures
        projected_row(row, indexes).len() == indexes.len(),
        forall|j: int|
            0 <= j < indexes.len() ==> #[trigger] projected_row(row, indexes)[j]
                == row[indexes[j]],
    decreases indexes.len(),
{
    if indexes.len() > 0 {
        let rest = indexes.drop_last();
        assert forall|j: int| 0 <= j < rest.len() implies 0 <= #[trigger] rest[j] < row.len() by {
            assert(rest[j] == indexes[j]);
        }
        lemma_projected_row_step(row, indexes);
        lemma_projected_row(row, rest);
        assert(0 <= indexes[indexes.len() - 1] < row.len());
    }
}

/// The projection law. Where a query over a well-formed catalog selects
/// records, the description has one entry for each selected column, under
/// the selected name; as many rows are sent as the table holds; and each
/// sent row has one field for each selected column, which is the field of
/// the physical row at the position of that column among the table's
/// columns.
pub proof fn lemma_select_projects(
    catalog: CatalogModel,
    raw_sql_query: Seq<char>,
    query: QueryModel,
)
    requires
        catalog.wf(),
        select_message(catalog, raw_sql_query, query) matches Ok(
            QueryEventModel::RecordsSelected(_, _),
        ),
    ensures
        ({
            let input = select_input(catalog, raw_sql_query, query)->Ok_0;
            let selected = input.selected_columns;
            let physical_columns = column_names(
                catalog.table_columns(input.schema_name, input.table_name),
            );
            let physical_rows = catalog.full_scan(input.schema_name, input.table_name);
            let description = select_message(
                catalog,
                raw_sql_query,
                query,
            )->Ok_0->RecordsSelected_0;
            let rows = select_message(catalog, raw_sql_query, query)->Ok_0->RecordsSelected_1;
            &&& select_input(catalog, raw_sql_query, query) is Ok
            &&& description.len() == selected.len()
            &&& rows.len() == physical_rows.len()
            &&& forall|j: int|
                0 <= j < selected.len() ==> (#[trigger] description[j]).0 == selected[j]
            &&& forall|i: int|
                0 <= i < rows.len() ==> (#[trigger] rows[i]).len() == selected.len()
            &&& forall|i: int, j: int|
                0 <= i < rows.len() && 0 <= j < selected.len() ==> {
                    &&& position(physical_columns, selected[j]) matches Some(origin)
                    &&& 0 <= origin < physical_rows[i].len()
                    &&& #[trigger] rows[i][j] == physical_rows[i][origin]
                }
        }),
{
    let input = select_input(catalog, raw_sql_query, query)->Ok_0;
    let selected = input.selected_columns;
    let all_columns = catalog.table_columns(input.schema_name, input.table_name);
    let physical_columns = column_names(all_columns);
    let physical_rows = catalog.full_scan(input.schema_name, input.table_name);
    let indexes = column_indexes(physical_columns, selected);
    let rows = projected_rows(physical_rows, indexes);
    let description = description_of(all_columns, indexes);
    assert(catalog.has_table(input.schema_name, input.table_name));
    lemma_column_indexes(physical_columns, selected);
    let s = catalog.schema_position(input.schema_name)->Some_0;
    crate::text::lemma_position_is_first(catalog.schema_names(), input.schema_name);
    let t = catalog.schemas[s].table_position(input.table_name)->Some_0;
    crate::text::lemma_position_is_first(catalog.schemas[s].table_names(), input.table_name);
    assert(catalog.schemas[s].wf());
    assert(catalog.schemas[s].tables[t].wf());
    assert forall|j: int| 0 <= j < selected.len() implies 0 <= #[trigger] indexes[j]
        < physical_columns.len() && physical_columns[indexes[j]] == selected[j] by {
        assert(position(physical_columns, selected[j]) == Some(indexes[j]));
        crate::text::lemma_position_is_first(physical_columns, selected[j]);
    }
    assert forall|i: int| 0 <= i < rows.len() implies (#[trigger] rows[i]).len()
        == selected.len() && forall|j: int|
        0 <= j < selected.len() ==> rows[i][j] == physical_rows[i][indexes[j]] by {
        assert(physical_rows[i].len() == physical_columns.len());
        lemma_projected_row(physical_rows[i], indexes);
    }
    assert forall|i: int, j: int| 0 <= i < rows.len() && 0 <= j < selected.len() implies {
        &&& position(physical_columns, selected[j]) matches Some(origin)
        &&& 0 <= origin < physical_rows[i].len()
        &&& #[trigger] rows[i][j] == physical_rows[i][origin]
    } by {
        assert(physical_rows[i].len() == physical_columns.len());
        assert(rows[i].len() == selected.len());
        assert(position(physical_columns, selected[j]) == Some(indexes[j]));
    }
}

} // verus!
