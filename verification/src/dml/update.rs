//! `UPDATE`: literals assigned to columns, in every row of one table.

use crate::ast::{Assignment, AssignmentModel, ExprModel, ObjectName};
use crate::catalog_manager::{column_names, CatalogManager, CatalogModel};
use crate::dml::insert::{lemma_value_assignments_prefix_none, literal_string, value_assignments};
use crate::dml::select::{as_ints, column_indexes, missing_columns, resolve_columns};
use crate::query::process::{check_table, checked_table};
use crate::results::{Message, QueryError, QueryErrorModel, QueryEvent, QueryEventModel, Sender,
    SystemResult};
use vstd::prelude::*;

verus! {

/// The columns that the assignments name, in order.
pub open spec fn assigned_names(assignments: Seq<AssignmentModel>) -> Seq<Seq<char>> {
    Seq::new(assignments.len(), |j: int| assignments[j].id.value)
}

/// The expressions that the assignments give, in order.
pub open spec fn assigned_values(assignments: Seq<AssignmentModel>) -> Seq<ExprModel> {
    Seq::new(assignments.len(), |j: int| assignments[j].value)
}

/// The table that an `UPDATE` changes and what it assigns in each row, a
/// column index and a datum for each assignment, or the error that ends it.
/// The name is checked first, then the schema, then the table, then the
/// assigned columns, then the values, which must be literals.
pub open spec fn update_plan(
    catalog: CatalogModel,
    raw_sql_query: Seq<char>,
    table_name: Seq<Seq<char>>,
    assignments: Seq<AssignmentModel>,
) -> Result<((Seq<char>, Seq<char>), Seq<(usize, Seq<char>)>), QueryErrorModel> {
    match checked_table(catalog, table_name) {
        Err(error) => Err(error),
        Ok(table_id) => {
            let all_names = column_names(catalog.table_columns(table_id.0, table_id.1));
            let names = assigned_names(assignments);
            if missing_columns(all_names, names).len() > 0 {
                Err(QueryErrorModel::ColumnDoesNotExist(missing_columns(all_names, names)))
            } else {
                match value_assignments(
                    assigned_values(assignments),
                    column_indexes(all_names, names),
                ) {
                    None => Err(QueryErrorModel::FeatureNotSupported(raw_sql_query)),
                    Some(list) => Ok((table_id, list)),
                }
            }
        },
    }
}

/// The catalog after an `UPDATE`.
pub open spec fn update_catalog(
    catalog: CatalogModel,
    raw_sql_query: Seq<char>,
    table_name: Seq<Seq<char>>,
    assignments: Seq<AssignmentModel>,
) -> CatalogModel {
    match update_plan(catalog, raw_sql_query, table_name, assignments) {
        Ok((table_id, list)) => catalog.update_all(table_id.0, table_id.1, list),
        Err(_) => catalog,
    }
}

/// The message that an `UPDATE` sends.
pub open spec fn update_message(
    catalog: CatalogModel,
    raw_sql_query: Seq<char>,
    table_name: Seq<Seq<char>>,
    assignments: Seq<AssignmentModel>,
) -> Message {
    match update_plan(catalog, raw_sql_query, table_name, assignments) {
        Ok((table_id, _)) => Ok(
            QueryEventModel::RecordsUpdated(catalog.full_scan(table_id.0, table_id.1).len()),
        ),
        Err(error) => Err(error),
    }
}

/// The command that updates rows.
pub struct UpdateCommand<'uc> {
    raw_sql_query: &'uc str,
    table_name: ObjectName,
    assignments: Vec<Assignment>,
}

impl<'uc> UpdateCommand<'uc> {
    pub fn new(
        raw_sql_query: &'uc str,
        table_name: ObjectName,
        assignments: Vec<Assignment>,
    ) -> (command: UpdateCommand<'uc>)
        ensures
            command.raw_sql_query() == raw_sql_query@,
            command.table_name() == table_name@,
            command.assignments() == assignments.deep_view(),
    {
        UpdateCommand { raw_sql_query, table_name, assignments }
    }

    /// The text of the statement, for diagnostics.
    pub closed spec fn raw_sql_query(&self) -> Seq<char> {
        self.raw_sql_query@
    }

    /// The name of the table, as the statement gives it.
    pub closed spec fn table_name(&self) -> Seq<Seq<char>> {
        self.table_name@
    }

    /// The assignments of the statement.
    pub closed spec fn assignments(&self) -> Seq<AssignmentModel> {
        self.assignments.deep_view()
    }

    /// Applies the assignments to every row of the table and sends
    /// `RecordsUpdated` with the number of rows; on an error nothing changes
    /// and the error is sent.
    #[verifier::loop_isolation(false)]
    pub fn execute(&self, storage: &mut CatalogManager, sender: &mut Sender) -> (done:
        SystemResult<()>)
        ensures
            done is Ok,
            final(storage)@ == update_catalog(
                old(storage)@,
                self.raw_sql_query(),
                self.table_name(),
                self.assignments(),
            ),
            final(sender)@ == old(sender)@.push(
                update_message(
                    old(storage)@,
                    self.raw_sql_query(),
                    self.table_name(),
                    self.assignments(),
                ),
            ),
    {
        let table_id = match check_table(&self.table_name, storage, sender) {
            Some(table_id) => table_id,
            None => {
                return Ok(());
            },
        };
        let all_columns = storage.table_columns(table_id.schema_name(), table_id.name());
        let ghost all_names = column_names(all_columns.deep_view());
        let ghost values = assigned_values(self.assignments());
        let mut names: Vec<String> = Vec::new();
        let mut n: usize = 0;
        while n < self.assignments.len()
            invariant
                n <= self.assignments@.len(),
                names@.len() == n,
                forall|k: int| 0 <= k < n ==> names@[k]@ == self.assignments@[k].id@.value,
            decreases self.assignments@.len() - n,
        {
            names.push(self.assignments[n].id.value.clone());
            n += 1;
        }
        assert(names.deep_view() =~= assigned_names(self.assignments()));
        let resolution = resolve_columns(&all_columns, &names);
        if !resolution.missing.is_empty() {
            sender.send(Err(QueryError::ColumnDoesNotExist(resolution.missing)));
            return Ok(());
        }
        let targets = resolution.indexes;
        proof {
            crate::dml::select::lemma_column_indexes(all_names, names.deep_view());
        }
        let mut list: Vec<(usize, String)> = Vec::new();
        assert(values.take(0) =~= Seq::empty());
        assert(list.deep_view() =~= Seq::empty());
        let mut j: usize = 0;
        while j < self.assignments.len()
            invariant
                j <= self.assignments@.len(),
                targets@.len() == self.assignments@.len(),
                sender@ == old(sender)@,
                storage@ == old(storage)@,
                list@.len() == j,
                forall|k: int| 0 <= k < j ==> (#[trigger] list@[k]).0 < all_columns@.len(),
                value_assignments(values.take(j as int), as_ints(targets@)) == Some(
                    list.deep_view(),
                ),
            decreases self.assignments@.len() - j,
        {
            let ghost before = list.deep_view();
            proof {
                assert(values.take(j + 1).drop_last() =~= values.take(j as int));
                assert(values.take(j + 1).last() == self.assignments@[j as int].value@);
                lemma_value_assignments_prefix_none(values, as_ints(targets@), j + 1);
            }
            match literal_string(&self.assignments[j].value) {
                Some(text) => {
                    list.push((targets[j], text));
                    assert(list.deep_view() =~= before.push((targets@[j as int], text@)));
                },
                None => {
                    sender.send(
                        Err(QueryError::FeatureNotSupported(self.raw_sql_query.to_owned())),
                    );
                    return Ok(());
                },
            }
            j += 1;
        }
        assert(values.take(j as int) =~= values);
        assert forall|a: int| 0 <= a < list.deep_view().len() implies (
        #[trigger] list.deep_view()[a]).0 < all_columns.deep_view().len() by {
            assert(list.deep_view()[a].0 == list@[a].0);
        }
        let updated = storage.update_all(table_id.schema_name(), table_id.name(), &list);
        sender.send(Ok(QueryEvent::RecordsUpdated(updated.unwrap())));
        Ok(())
    }
}

} // verus!
