//! The catalog: schemas, their tables, the columns of each table and its
//! rows, kept in memory. A row holds the text of one datum for each column.

use crate::text::{clone_rows, clone_strings, lemma_position_found, lemma_position_is_first,
    lemma_position_missing, position, str_eq};
use crate::{ColumnDefinition, ColumnDefinitionModel};
use vstd::prelude::*;

verus! {

/// The mathematical value of a table.
pub struct TableModel {
    pub name: Seq<char>,
    pub columns: Seq<ColumnDefinitionModel>,
    pub rows: Seq<Seq<Seq<char>>>,
}

/// The mathematical value of a schema.
pub struct SchemaModel {
    pub name: Seq<char>,
    pub tables: Seq<TableModel>,
}

/// The mathematical value of the catalog.
pub struct CatalogModel {
    pub schemas: Seq<SchemaModel>,
}

/// The names of `columns`, in order.
pub open spec fn column_names(columns: Seq<ColumnDefinitionModel>) -> Seq<Seq<char>> {
    Seq::new(columns.len(), |i: int| columns[i].name)
}

/// The row `row` after each of `assignments`, a column index and a new
/// datum, was applied in order; an index outside the row changes nothing.
pub open spec fn assigned_row(row: Seq<Seq<char>>, assignments: Seq<(usize, Seq<char>)>) -> Seq<
    Seq<char>,
>
    decreases assignments.len(),
{
    if assignments.len() == 0 {
        row
    } else {
        let last = assignments.last();
        let before = assigned_row(row, assignments.drop_last());
        if last.0 < before.len() {
            before.update(last.0 as int, last.1)
        } else {
            before
        }
    }
}

impl TableModel {
    /// Every row has one datum for each column.
    pub open spec fn wf(self) -> bool {
        forall|r: int| 0 <= r < self.rows.len() ==> (#[trigger] self.rows[r]).len()
            == self.columns.len()
    }
}

impl SchemaModel {
    pub open spec fn table_names(self) -> Seq<Seq<char>> {
        Seq::new(self.tables.len(), |i: int| self.tables[i].name)
    }

    pub open spec fn table_position(self, name: Seq<char>) -> Option<int> {
        position(self.table_names(), name)
    }

    /// No two tables share a name, and every table is well formed.
    pub open spec fn wf(self) -> bool {
        &&& forall|i: int, j: int|
            0 <= i < j < self.tables.len() ==> self.tables[i].name != self.tables[j].name
        &&& forall|i: int| 0 <= i < self.tables.len() ==> (#[trigger] self.tables[i]).wf()
    }
}

impl CatalogModel {
    pub open spec fn schema_names(self) -> Seq<Seq<char>> {
        Seq::new(self.schemas.len(), |i: int| self.schemas[i].name)
    }

    pub open spec fn schema_position(self, name: Seq<char>) -> Option<int> {
        position(self.schema_names(), name)
    }

    /// No two schemas share a name, and every schema is well formed.
    pub open spec fn wf(self) -> bool {
        &&& forall|i: int, j: int|
            0 <= i < j < self.schemas.len() ==> self.schemas[i].name != self.schemas[j].name
        &&& forall|i: int| 0 <= i < self.schemas.len() ==> (#[trigger] self.schemas[i]).wf()
    }

    pub open spec fn schema_exists(self, name: Seq<char>) -> bool {
        self.schema_position(name) is Some
    }

    /// `None` where the schema is missing; else the schema's index and,
    /// where the table exists, the table's index in the schema.
    pub open spec fn table_exists(self, schema: Seq<char>, table: Seq<char>) -> Option<
        (int, Option<int>),
    > {
        match self.schema_position(schema) {
            None => None,
            Some(s) => Some((s, self.schemas[s].table_position(table))),
        }
    }

    pub open spec fn has_table(self, schema: Seq<char>, table: Seq<char>) -> bool {
        self.table_exists(schema, table) matches Some((_, Some(_)))
    }

    /// The table of that name; meaningful where the table exists.
    pub open spec fn table(self, schema: Seq<char>, table: Seq<char>) -> TableModel
        recommends
            self.has_table(schema, table),
    {
        let s = self.schema_position(schema)->Some_0;
        self.schemas[s].tables[self.schemas[s].table_position(table)->Some_0]
    }

    /// The columns of the table in catalog order; none where it is missing.
    pub open spec fn table_columns(self, schema: Seq<char>, table: Seq<char>) -> Seq<
        ColumnDefinitionModel,
    > {
        if self.has_table(schema, table) {
            self.table(schema, table).columns
        } else {
            Seq::empty()
        }
    }

    /// The rows of the table in storage order; none where it is missing.
    pub open spec fn full_scan(self, schema: Seq<char>, table: Seq<char>) -> Seq<
        Seq<Seq<char>>,
    > {
        if self.has_table(schema, table) {
            self.table(schema, table).rows
        } else {
            Seq::empty()
        }
    }

    /// The catalog with the table of that name replaced by `new_table`.
    pub open spec fn with_table(
        self,
        schema: Seq<char>,
        table: Seq<char>,
        new_table: TableModel,
    ) -> CatalogModel
        recommends
            self.has_table(schema, table),
    {
        let s = self.schema_position(schema)->Some_0;
        let t = self.schemas[s].table_position(table)->Some_0;
        CatalogModel {
            schemas: self.schemas.update(
                s,
                SchemaModel {
                    name: self.schemas[s].name,
                    tables: self.schemas[s].tables.update(t, new_table),
                },
            ),
        }
    }

    /// The catalog with the rows of the table of that name replaced.
    pub open spec fn with_rows(
        self,
        schema: Seq<char>,
        table: Seq<char>,
        rows: Seq<Seq<Seq<char>>>,
    ) -> CatalogModel
        recommends
            self.has_table(schema, table),
    {
        let old_table = self.table(schema, table);
        self.with_table(
            schema,
            table,
            TableModel { name: old_table.name, columns: old_table.columns, rows },
        )
    }

    /// A new, empty schema is added last, unless the name is taken.
    pub open spec fn create_schema(self, name: Seq<char>) -> CatalogModel {
        if self.schema_exists(name) {
            self
        } else {
            CatalogModel {
                schemas: self.schemas.push(SchemaModel { name, tables: Seq::empty() }),
            }
        }
    }

    /// The schema leaves with all its tables, if it exists.
    pub open spec fn drop_schema(self, name: Seq<char>) -> CatalogModel {
        match self.schema_position(name) {
            Some(s) => CatalogModel { schemas: self.schemas.remove(s) },
            None => self,
        }
    }

    /// A new table without rows is added last in its schema, if the schema
    /// exists and the name is free in it.
    pub open spec fn create_table(
        self,
        schema: Seq<char>,
        table: Seq<char>,
        columns: Seq<ColumnDefinitionModel>,
    ) -> CatalogModel {
        match self.table_exists(schema, table) {
            Some((s, None)) => CatalogModel {
                schemas: self.schemas.update(
                    s,
                    SchemaModel {
                        name: self.schemas[s].name,
                        tables: self.schemas[s].tables.push(
                            TableModel { name: table, columns, rows: Seq::empty() },
                        ),
                    },
                ),
            },
            _ => self,
        }
    }

    /// The table leaves its schema, if it exists.
    pub open spec fn drop_table(self, schema: Seq<char>, table: Seq<char>) -> CatalogModel {
        match self.table_exists(schema, table) {
            Some((s, Some(t))) => CatalogModel {
                schemas: self.schemas.update(
                    s,
                    SchemaModel {
                        name: self.schemas[s].name,
                        tables: self.schemas[s].tables.remove(t),
                    },
                ),
            },
            _ => self,
        }
    }

    /// Whether `rows` can be stored in the table: it exists, and every row
    /// has one datum for each of its columns.
    pub open spec fn accepts_rows(
        self,
        schema: Seq<char>,
        table: Seq<char>,
        rows: Seq<Seq<Seq<char>>>,
    ) -> bool {
        &&& self.has_table(schema, table)
        &&& forall|r: int|
            0 <= r < rows.len() ==> (#[trigger] rows[r]).len() == self.table(
                schema,
                table,
            ).columns.len()
    }

    /// The rows are added after those that the table holds, if it accepts
    /// them.
    pub open spec fn insert_into(
        self,
        schema: Seq<char>,
        table: Seq<char>,
        rows: Seq<Seq<Seq<char>>>,
    ) -> CatalogModel {
        if self.accepts_rows(schema, table, rows) {
            self.with_rows(schema, table, self.table(schema, table).rows + rows)
        } else {
            self
        }
    }

    /// Whether `assignments` can be applied to the table: it exists, and
    /// each of them names one of its columns by index.
    pub open spec fn accepts_assignments(
        self,
        schema: Seq<char>,
        table: Seq<char>,
        assignments: Seq<(usize, Seq<char>)>,
    ) -> bool {
        &&& self.has_table(schema, table)
        &&& forall|a: int|
            0 <= a < assignments.len() ==> (#[trigger] assignments[a]).0 < self.table(
                schema,
                table,
            ).columns.len()
    }

    /// Every row of the table gets the assignments applied in order, if the
    /// table accepts them.
    pub open spec fn update_all(
        self,
        schema: Seq<char>,
        table: Seq<char>,
        assignments: Seq<(usize, Seq<char>)>,
    ) -> CatalogModel {
        if self.accepts_assignments(schema, table, assignments) {
            let rows = self.table(schema, table).rows;
            self.with_rows(
                schema,
                table,
                Seq::new(rows.len(), |r: int| assigned_row(rows[r], assignments)),
            )
        } else {
            self
        }
    }

    /// Every row leaves the table, if it exists.
    pub open spec fn delete_all_from(self, schema: Seq<char>, table: Seq<char>) -> CatalogModel {
        if self.has_table(schema, table) {
            self.with_rows(schema, table, Seq::empty())
        } else {
            self
        }
    }
}

/// A catalog without schemas is well formed.
pub proof fn lemma_empty_catalog_wf(catalog: CatalogModel)
    requires
        catalog.schemas.len() == 0,
    ensures
        catalog.wf(),
{
}

/// Creating a schema keeps a catalog well formed.
pub proof fn lemma_create_schema_wf(catalog: CatalogModel, name: Seq<char>)
    requires
        catalog.wf(),
    ensures
        catalog.create_schema(name).wf(),
{
    lemma_position_is_first(catalog.schema_names(), name);
    let after = catalog.create_schema(name);
    if !catalog.schema_exists(name) {
        assert forall|i: int, j: int| 0 <= i < j < after.schemas.len() implies after.schemas[i].name
            != after.schemas[j].name by {
            if j == catalog.schemas.len() {
                assert(catalog.schema_names()[i] != name);
            }
        }
    }
}

/// Dropping a schema keeps a catalog well formed.
pub proof fn lemma_drop_schema_wf(catalog: CatalogModel, name: Seq<char>)
    requires
        catalog.wf(),
    ensures
        catalog.drop_schema(name).wf(),
{
    lemma_position_is_first(catalog.schema_names(), name);
}

/// Replacing the tables of one schema by tables that are well formed under
/// distinct names keeps a catalog well formed.
proof fn lemma_with_tables_wf(catalog: CatalogModel, s: int, tables: Seq<TableModel>)
    requires
        catalog.wf(),
        0 <= s < catalog.schemas.len(),
        (SchemaModel { name: catalog.schemas[s].name, tables }).wf(),
    ensures
        (CatalogModel {
            schemas: catalog.schemas.update(
                s,
                SchemaModel { name: catalog.schemas[s].name, tables },
            ),
        }).wf(),
{
}

/// Creating a table keeps a catalog well formed.
pub proof fn lemma_create_table_wf(
    catalog: CatalogModel,
    schema: Seq<char>,
    table: Seq<char>,
    columns: Seq<ColumnDefinitionModel>,
)
    requires
        catalog.wf(),
    ensures
        catalog.create_table(schema, table, columns).wf(),
{
    lemma_position_is_first(catalog.schema_names(), schema);
    match catalog.table_exists(schema, table) {
        Some((s, None)) => {
            lemma_position_is_first(catalog.schemas[s].table_names(), table);
            let old_tables = catalog.schemas[s].tables;
            let new_table = TableModel { name: table, columns, rows: Seq::empty() };
            let tables = old_tables.push(new_table);
            assert(catalog.schemas[s].wf());
            assert forall|i: int, j: int| 0 <= i < j < tables.len() implies tables[i].name
                != tables[j].name by {
                if j == old_tables.len() {
                    assert(catalog.schemas[s].table_names()[i] != table);
                }
            }
            assert forall|i: int| 0 <= i < tables.len() implies (#[trigger] tables[i]).wf() by {
                if i < old_tables.len() {
                    assert(old_tables[i].wf());
                }
            }
            lemma_with_tables_wf(catalog, s, tables);
        },
        _ => {},
    }
}

/// Dropping a table keeps a catalog well formed.
pub proof fn lemma_drop_table_wf(catalog: CatalogModel, schema: Seq<char>, table: Seq<char>)
    requires
        catalog.wf(),
    ensures
        catalog.drop_table(schema, table).wf(),
{
    lemma_position_is_first(catalog.schema_names(), schema);
    match catalog.table_exists(schema, table) {
        Some((s, Some(t))) => {
            lemma_position_is_first(catalog.schemas[s].table_names(), table);
            let old_tables = catalog.schemas[s].tables;
            let tables = old_tables.remove(t);
            assert(catalog.schemas[s].wf());
            assert forall|i: int| 0 <= i < tables.len() implies (#[trigger] tables[i]).wf() by {
                if i < t {
                    assert(old_tables[i].wf());
                } else {
                    assert(old_tables[i + 1].wf());
                }
            }
            lemma_with_tables_wf(catalog, s, tables);
        },
        _ => {},
    }
}

/// Replacing the rows of a table by rows of the table's width keeps a
/// catalog well formed.
pub proof fn lemma_with_rows_wf(
    catalog: CatalogModel,
    schema: Seq<char>,
    table: Seq<char>,
    rows: Seq<Seq<Seq<char>>>,
)
    requires
        catalog.wf(),
        catalog.accepts_rows(schema, table, rows),
    ensures
        catalog.with_rows(schema, table, rows).wf(),
{
    lemma_position_is_first(catalog.schema_names(), schema);
    let s = catalog.schema_position(schema)->Some_0;
    lemma_position_is_first(catalog.schemas[s].table_names(), table);
    let t = catalog.schemas[s].table_position(table)->Some_0;
    let old_tables = catalog.schemas[s].tables;
    let new_table = TableModel {
        name: old_tables[t].name,
        columns: old_tables[t].columns,
        rows,
    };
    let tables = old_tables.update(t, new_table);
    assert(catalog.schemas[s].wf());
    assert forall|i: int| 0 <= i < tables.len() implies (#[trigger] tables[i]).wf() by {
        if i != t {
            assert(old_tables[i].wf());
        }
    }
    lemma_with_tables_wf(catalog, s, tables);
}

/// Inserting rows keeps a catalog well formed.
pub proof fn lemma_insert_into_wf(
    catalog: CatalogModel,
    schema: Seq<char>,
    table: Seq<char>,
    rows: Seq<Seq<Seq<char>>>,
)
    requires
        catalog.wf(),
    ensures
        catalog.insert_into(schema, table, rows).wf(),
{
    if catalog.accepts_rows(schema, table, rows) {
        lemma_table_wf(catalog, schema, table);
        let held = catalog.table(schema, table).rows;
        let all = held + rows;
        assert forall|r: int| 0 <= r < all.len() implies (#[trigger] all[r]).len()
            == catalog.table(schema, table).columns.len() by {
            if r < held.len() {
                assert(all[r] == held[r]);
            } else {
                assert(all[r] == rows[r - held.len()]);
            }
        }
        lemma_with_rows_wf(catalog, schema, table, all);
    }
}

/// Updating rows keeps a catalog well formed.
pub proof fn lemma_update_all_wf(
    catalog: CatalogModel,
    schema: Seq<char>,
    table: Seq<char>,
    assignments: Seq<(usize, Seq<char>)>,
)
    requires
        catalog.wf(),
    ensures
        catalog.update_all(schema, table, assignments).wf(),
{
    if catalog.accepts_assignments(schema, table, assignments) {
        lemma_table_wf(catalog, schema, table);
        let held = catalog.table(schema, table).rows;
        let all = Seq::new(held.len(), |r: int| assigned_row(held[r], assignments));
        assert forall|r: int| 0 <= r < all.len() implies (#[trigger] all[r]).len()
            == catalog.table(schema, table).columns.len() by {
            lemma_assigned_row_len(held[r], assignments);
        }
        lemma_with_rows_wf(catalog, schema, table, all);
    }
}

/// Deleting rows keeps a catalog well formed.
pub proof fn lemma_delete_all_from_wf(catalog: CatalogModel, schema: Seq<char>, table: Seq<char>)
    requires
        catalog.wf(),
    ensures
        catalog.delete_all_from(schema, table).wf(),
{
    if catalog.has_table(schema, table) {
        lemma_with_rows_wf(catalog, schema, table, Seq::empty());
    }
}

/// A table of a well-formed catalog is well formed.
pub proof fn lemma_table_wf(catalog: CatalogModel, schema: Seq<char>, table: Seq<char>)
    requires
        catalog.wf(),
        catalog.has_table(schema, table),
    ensures
        catalog.table(schema, table).wf(),
{
    lemma_position_is_first(catalog.schema_names(), schema);
    let s = catalog.schema_position(schema)->Some_0;
    lemma_position_is_first(catalog.schemas[s].table_names(), table);
    assert(catalog.schemas[s].wf());
}

/// Applying assignments to a row keeps its width.
pub proof fn lemma_assigned_row_len(row: Seq<Seq<char>>, assignments: Seq<(usize, Seq<char>)>)
    ensures
        assigned_row(row, assignments).len() == row.len(),
    decreases assignments.len(),
{
    if assignments.len() > 0 {
        lemma_assigned_row_len(row, assignments.drop_last());
    }
}

struct Table {
    name: String,
    columns: Vec<ColumnDefinition>,
    rows: Vec<Vec<String>>,
}

struct Schema {
    name: String,
    tables: Vec<Table>,
}

/// The catalog manager: the owner of every schema, table and row.
pub struct CatalogManager {
    schemas: Vec<Schema>,
}

impl DeepView for Table {
    type V = TableModel;

    closed spec fn deep_view(&self) -> TableModel {
        TableModel {
            name: self.name@,
            columns: self.columns.deep_view(),
            rows: self.rows.deep_view(),
        }
    }
}

impl DeepView for Schema {
    type V = SchemaModel;

    closed spec fn deep_view(&self) -> SchemaModel {
        SchemaModel { name: self.name@, tables: self.tables.deep_view() }
    }
}

impl View for CatalogManager {
    type V = CatalogModel;

    closed spec fn view(&self) -> CatalogModel {
        CatalogModel { schemas: self.schemas.deep_view() }
    }
}

/// A copy of a list of columns.
pub fn clone_columns(columns: &Vec<ColumnDefinition>) -> (copy: Vec<ColumnDefinition>)
    ensures
        copy.deep_view() == columns.deep_view(),
{
    let mut copy: Vec<ColumnDefinition> = Vec::new();
    let mut i: usize = 0;
    while i < columns.len()
        invariant
            i <= columns@.len(),
            copy@.len() == i,
            forall|j: int| 0 <= j < i ==> copy@[j]@ == columns@[j]@,
        decreases columns@.len() - i,
    {
        copy.push(columns[i].clone());
        i += 1;
    }
    assert(copy.deep_view() =~= columns.deep_view());
    copy
}

impl CatalogManager {
    /// A catalog without schemas.
    pub fn new() -> (catalog: CatalogManager)
        ensures
            catalog@.schemas.len() == 0,
            catalog@.wf(),
    {
        let catalog = CatalogManager { schemas: Vec::new() };
        proof {
            lemma_empty_catalog_wf(catalog@);
        }
        catalog
    }

    fn schema_index(&self, name: &str) -> (found: Option<usize>)
        ensures
            found matches Some(s) ==> self@.schema_position(name@) == Some(s as int) && s
                < self.schemas@.len(),
            found is None ==> self@.schema_position(name@) is None,
    {
        let mut i: usize = 0;
        while i < self.schemas.len()
            invariant
                i <= self.schemas@.len(),
                forall|j: int| 0 <= j < i ==> self@.schema_names()[j] != name@,
            decreases self.schemas@.len() - i,
        {
            if str_eq(self.schemas[i].name.as_str(), name) {
                proof {
                    lemma_position_found(self@.schema_names(), name@, i as int);
                }
                return Some(i);
            }
            i += 1;
        }
        proof {
            lemma_position_missing(self@.schema_names(), name@);
        }
        None
    }

    fn table_index(&self, s: usize, name: &str) -> (found: Option<usize>)
        requires
            s < self.schemas@.len(),
        ensures
            found matches Some(t) ==> self@.schemas[s as int].table_position(name@) == Some(
                t as int,
            ) && t < self.schemas@[s as int].tables@.len(),
            found is None ==> self@.schemas[s as int].table_position(name@) is None,
    {
        let schema = &self.schemas[s];
        let mut i: usize = 0;
        while i < schema.tables.len()
            invariant
                s < self.schemas@.len(),
                schema == self.schemas@[s as int],
                i <= schema.tables@.len(),
                forall|j: int| 0 <= j < i ==> self@.schemas[s as int].table_names()[j] != name@,
            decreases schema.tables@.len() - i,
        {
            if str_eq(schema.tables[i].name.as_str(), name) {
                proof {
                    lemma_position_found(
                        self@.schemas[s as int].table_names(),
                        name@,
                        i as int,
                    );
                }
                return Some(i);
            }
            i += 1;
        }
        proof {
            lemma_position_missing(self@.schemas[s as int].table_names(), name@);
        }
        None
    }

    /// The index of the schema of that name, if it exists.
    pub fn schema_exists(&self, schema_name: &str) -> (found: Option<usize>)
        ensures
            found is Some <==> self@.schema_exists(schema_name@),
            found matches Some(s) ==> self@.schema_position(schema_name@) == Some(s as int),
    {
        self.schema_index(schema_name)
    }

    /// `None` where the schema is missing; else the schema's index and,
    /// where the table exists, the table's index in the schema.
    pub fn table_exists(&self, schema_name: &str, table_name: &str) -> (found: Option<
        (usize, Option<usize>),
    >)
        ensures
            found is None <==> self@.table_exists(schema_name@, table_name@) is None,
            found matches Some((s, t)) ==> {
                &&& self@.table_exists(schema_name@, table_name@) matches Some((ms, mt))
                &&& ms == s
                &&& (t is None <==> mt is None)
                &&& (t matches Some(ti) ==> mt == Some(ti as int))
            },
    {
        match self.schema_index(schema_name) {
            None => None,
            Some(s) => Some((s, self.table_index(s, table_name))),
        }
    }

    /// The columns of a table in catalog order; none where it is missing.
    pub fn table_columns(&self, schema_name: &str, table_name: &str) -> (columns: Vec<
        ColumnDefinition,
    >)
        ensures
            columns.deep_view() == self@.table_columns(schema_name@, table_name@),
    {
        match self.table_exists(schema_name, table_name) {
            Some((s, Some(t))) => clone_columns(&self.schemas[s].tables[t].columns),
            _ => {
                let none: Vec<ColumnDefinition> = Vec::new();
                assert(none.deep_view() =~= Seq::empty());
                none
            },
        }
    }

    /// The rows of a table in storage order; none where it is missing.
    pub fn full_scan(&self, schema_name: &str, table_name: &str) -> (rows: Vec<Vec<String>>)
        ensures
            rows.deep_view() == self@.full_scan(schema_name@, table_name@),
    {
        match self.table_exists(schema_name, table_name) {
            Some((s, Some(t))) => clone_rows(&self.schemas[s].tables[t].rows),
            _ => {
                let none: Vec<Vec<String>> = Vec::new();
                assert(none.deep_view() =~= Seq::empty());
                none
            },
        }
    }

    /// Creates an empty schema; `false`, and nothing changes, where a
    /// schema of that name exists.
    pub fn create_schema(&mut self, schema_name: &str) -> (created: bool)
        ensures
            created == !old(self)@.schema_exists(schema_name@),
            final(self)@ == old(self)@.create_schema(schema_name@),
            old(self)@.wf() ==> final(self)@.wf(),
    {
        proof {
            if self@.wf() {
                lemma_create_schema_wf(self@, schema_name@);
            }
        }
        proof {
            lemma_position_is_first(self@.schema_names(), schema_name@);
        }
        match self.schema_index(schema_name) {
            Some(_) => false,
            None => {
                let schema = Schema { name: schema_name.to_owned(), tables: Vec::new() };
                assert(schema.deep_view().tables =~= Seq::empty());
                let ghost before = self@;
                assert(forall|j: int|
                    0 <= j < before.schemas.len() ==> before.schema_names()[j]
                        == before.schemas[j].name);
                self.schemas.push(schema);
                assert(self@.schemas =~= before.schemas.push(
                    SchemaModel { name: schema_name@, tables: Seq::empty() },
                ));
                true
            },
        }
    }

    /// Drops a schema with its tables; `false`, and nothing changes, where
    /// no schema of that name exists.
    pub fn drop_schema(&mut self, schema_name: &str) -> (dropped: bool)
        ensures
            dropped == old(self)@.schema_exists(schema_name@),
            final(self)@ == old(self)@.drop_schema(schema_name@),
            old(self)@.wf() ==> final(self)@.wf(),
    {
        proof {
            if self@.wf() {
                lemma_drop_schema_wf(self@, schema_name@);
            }
        }
        match self.schema_index(schema_name) {
            None => false,
            Some(s) => {
                let ghost before = self@;
                self.schemas.remove(s);
                assert(self@.schemas =~= before.schemas.remove(s as int));
                true
            },
        }
    }

    /// Creates a table without rows; `false`, and nothing changes, where
    /// the schema is missing or holds a table of that name.
    pub fn create_table(
        &mut self,
        schema_name: &str,
        table_name: &str,
        columns: Vec<ColumnDefinition>,
    ) -> (created: bool)
        ensures
            created == (old(self)@.table_exists(schema_name@, table_name@) matches Some(
                (_, None),
            )),
            final(self)@ == old(self)@.create_table(
                schema_name@,
                table_name@,
                columns.deep_view(),
            ),
            old(self)@.wf() ==> final(self)@.wf(),
    {
        proof {
            if self@.wf() {
                lemma_create_table_wf(self@, schema_name@, table_name@, columns.deep_view());
            }
        }
        match self.table_exists(schema_name, table_name) {
            Some((s, None)) => {
                let ghost before = self@;
                proof {
                    lemma_position_is_first(before.schemas[s as int].table_names(), table_name@);
                    assert(forall|j: int|
                        0 <= j < before.schemas[s as int].tables.len()
                            ==> before.schemas[s as int].table_names()[j]
                            == before.schemas[s as int].tables[j].name);
                }
                let table = Table { name: table_name.to_owned(), columns, rows: Vec::new() };
                assert(table.deep_view().rows =~= Seq::empty());
                self.schemas[s].tables.push(table);
                proof {
                    let new_tables = before.schemas[s as int].tables.push(
                        TableModel {
                            name: table_name@,
                            columns: columns.deep_view(),
                            rows: Seq::empty(),
                        },
                    );
                    assert(self.schemas@[s as int].deep_view().tables =~= new_tables);
                    assert(self@.schemas =~= before.schemas.update(
                        s as int,
                        SchemaModel { name: before.schemas[s as int].name, tables: new_tables },
                    ));
                }
                true
            },
            _ => false,
        }
    }

    /// Drops a table with its rows; `false`, and nothing changes, where no
    /// table of that name exists.
    pub fn drop_table(&mut self, schema_name: &str, table_name: &str) -> (dropped: bool)
        ensures
            dropped == old(self)@.has_table(schema_name@, table_name@),
            final(self)@ == old(self)@.drop_table(schema_name@, table_name@),
            old(self)@.wf() ==> final(self)@.wf(),
    {
        proof {
            if self@.wf() {
                lemma_drop_table_wf(self@, schema_name@, table_name@);
            }
        }
        match self.table_exists(schema_name, table_name) {
            Some((s, Some(t))) => {
                let ghost before = self@;
                self.schemas[s].tables.remove(t);
                proof {
                    let new_tables = before.schemas[s as int].tables.remove(t as int);
                    assert(self.schemas@[s as int].deep_view().tables =~= new_tables);
                    assert(self@.schemas =~= before.schemas.update(
                        s as int,
                        SchemaModel { name: before.schemas[s as int].name, tables: new_tables },
                    ));
                }
                true
            },
            _ => false,
        }
    }

    /// Replaces the rows of the table at the given indices.
    fn set_rows(&mut self, s: usize, t: usize, rows: Vec<Vec<String>>)
        requires
            s < old(self).schemas@.len(),
            t < old(self).schemas@[s as int].tables@.len(),
        ensures
            final(self)@.schemas == old(self)@.schemas.update(
                s as int,
                SchemaModel {
                    name: old(self)@.schemas[s as int].name,
                    tables: old(self)@.schemas[s as int].tables.update(
                        t as int,
                        TableModel {
                            name: old(self)@.schemas[s as int].tables[t as int].name,
                            columns: old(self)@.schemas[s as int].tables[t as int].columns,
                            rows: rows.deep_view(),
                        },
                    ),
                },
            ),
    {
        let ghost before = self@;
        self.schemas[s].tables[t].rows = rows;
        proof {
            let new_tables = before.schemas[s as int].tables.update(
                t as int,
                TableModel {
                    name: before.schemas[s as int].tables[t as int].name,
                    columns: before.schemas[s as int].tables[t as int].columns,
                    rows: rows.deep_view(),
                },
            );
            assert(self.schemas@[s as int].deep_view().tables =~= new_tables);
            assert(self@.schemas =~= before.schemas.update(
                s as int,
                SchemaModel { name: before.schemas[s as int].name, tables: new_tables },
            ));
        }
    }

    /// Adds rows to a table, after those that it holds. `None`, and nothing
    /// changes, where the table is missing or a row has not one datum for
    /// each column; else the number of rows added.
    #[verifier::loop_isolation(false)]
    pub fn insert_into(
        &mut self,
        schema_name: &str,
        table_name: &str,
        rows: Vec<Vec<String>>,
    ) -> (inserted: Option<usize>)
        ensures
            inserted is Some <==> old(self)@.accepts_rows(
                schema_name@,
                table_name@,
                rows.deep_view(),
            ),
            inserted matches Some(n) ==> n == rows@.len(),
            final(self)@ == old(self)@.insert_into(schema_name@, table_name@, rows.deep_view()),
            old(self)@.wf() ==> final(self)@.wf(),
    {
        proof {
            if self@.wf() {
                lemma_insert_into_wf(self@, schema_name@, table_name@, rows.deep_view());
            }
        }
        match self.table_exists(schema_name, table_name) {
            Some((s, Some(t))) => {
                let width = self.schemas[s].tables[t].columns.len();
                let mut r: usize = 0;
                while r < rows.len()
                    invariant
                        r <= rows@.len(),
                        forall|k: int|
                            0 <= k < r ==> (#[trigger] rows.deep_view()[k]).len() == width,
                    decreases rows@.len() - r,
                {
                    if rows[r].len() != width {
                        assert(rows.deep_view()[r as int].len() != width);
                        return None;
                    }
                    r += 1;
                }
                let count = rows.len();
                let mut all = clone_rows(&self.schemas[s].tables[t].rows);
                let ghost held = all.deep_view();
                let mut rows = rows;
                let ghost added = rows.deep_view();
                all.append(&mut rows);
                assert(all.deep_view() =~= held + added);
                self.set_rows(s, t, all);
                Some(count)
            },
            _ => None,
        }
    }

    /// Applies assignments, each a column index and a new datum, in order to
    /// every row of a table. `None`, and nothing changes, where the table is
    /// missing or an index is not one of its columns; else the number of
    /// rows of the table.
    #[verifier::loop_isolation(false)]
    pub fn update_all(
        &mut self,
        schema_name: &str,
        table_name: &str,
        assignments: &Vec<(usize, String)>,
    ) -> (updated: Option<usize>)
        ensures
            updated is Some <==> old(self)@.accepts_assignments(
                schema_name@,
                table_name@,
                assignments.deep_view(),
            ),
            updated matches Some(n) ==> n == old(self)@.full_scan(schema_name@, table_name@).len(),
            final(self)@ == old(self)@.update_all(
                schema_name@,
                table_name@,
                assignments.deep_view(),
            ),
            old(self)@.wf() ==> final(self)@.wf(),
    {
        proof {
            if self@.wf() {
                lemma_update_all_wf(self@, schema_name@, table_name@, assignments.deep_view());
            }
        }
        match self.table_exists(schema_name, table_name) {
            Some((s, Some(t))) => {
                let width = self.schemas[s].tables[t].columns.len();
                let mut a: usize = 0;
                while a < assignments.len()
                    invariant
                        a <= assignments@.len(),
                        forall|k: int|
                            0 <= k < a ==> (#[trigger] assignments.deep_view()[k]).0 < width,
                    decreases assignments@.len() - a,
                {
                    if assignments[a].0 >= width {
                        assert(assignments.deep_view()[a as int].0 >= width);
                        return None;
                    }
                    a += 1;
                }
                let ghost held = self@.schemas[s as int].tables[t as int].rows;
                let count = self.schemas[s].tables[t].rows.len();
                let mut all: Vec<Vec<String>> = Vec::new();
                let mut r: usize = 0;
                while r < count
                    invariant
                        s < self.schemas@.len(),
                        t < self.schemas@[s as int].tables@.len(),
                        count == self.schemas@[s as int].tables@[t as int].rows@.len(),
                        held == self@.schemas[s as int].tables[t as int].rows,
                        r <= count,
                        all@.len() == r,
                        forall|k: int|
                            0 <= k < r ==> (#[trigger] all@[k]).deep_view() == assigned_row(
                                held[k],
                                assignments.deep_view(),
                            ),
                    decreases count - r,
                {
                    let row = assign_row(&self.schemas[s].tables[t].rows[r], assignments);
                    all.push(row);
                    r += 1;
                }
                assert(all.deep_view() =~= Seq::new(
                    held.len(),
                    |k: int| assigned_row(held[k], assignments.deep_view()),
                ));
                self.set_rows(s, t, all);
                Some(count)
            },
            _ => None,
        }
    }

    /// Removes every row of a table. `None` where the table is missing;
    /// else the number of rows removed.
    pub fn delete_all_from(&mut self, schema_name: &str, table_name: &str) -> (deleted: Option<
        usize,
    >)
        ensures
            deleted is Some <==> old(self)@.has_table(schema_name@, table_name@),
            deleted matches Some(n) ==> n == old(self)@.full_scan(schema_name@, table_name@).len(),
            final(self)@ == old(self)@.delete_all_from(schema_name@, table_name@),
            old(self)@.wf() ==> final(self)@.wf(),
    {
        proof {
            if self@.wf() {
                lemma_delete_all_from_wf(self@, schema_name@, table_name@);
            }
        }
        match self.table_exists(schema_name, table_name) {
            Some((s, Some(t))) => {
                let count = self.schemas[s].tables[t].rows.len();
                let none: Vec<Vec<String>> = Vec::new();
                assert(none.deep_view() =~= Seq::empty());
                self.set_rows(s, t, none);
                Some(count)
            },
            _ => None,
        }
    }
}

/// A row with assignments applied in order: each replaces the datum at its
/// index, and one whose index is outside the row changes nothing.
pub fn assign_row(row: &Vec<String>, assignments: &Vec<(usize, String)>) -> (assigned: Vec<String>)
    ensures
        assigned.deep_view() == assigned_row(row.deep_view(), assignments.deep_view()),
{
    let mut assigned = clone_strings(row);
    assert(assignments.deep_view().take(0) =~= Seq::empty());
    let mut a: usize = 0;
    while a < assignments.len()
        invariant
            a <= assignments@.len(),
            assigned.deep_view() == assigned_row(
                row.deep_view(),
                assignments.deep_view().take(a as int),
            ),
        decreases assignments@.len() - a,
    {
        let ghost before = assigned.deep_view();
        let ghost done = assignments.deep_view().take(a as int);
        let ghost next = assignments.deep_view().take(a + 1);
        proof {
            assert(next.drop_last() =~= done);
            assert(next.last() == (assignments@[a as int].0, assignments@[a as int].1@));
            assert(assignments.deep_view().take(0) =~= Seq::empty());
        }
        let index = assignments[a].0;
        if index < assigned.len() {
            assigned[index] = assignments[a].1.clone();
            assert(assigned.deep_view() =~= before.update(index as int, assignments@[a as int].1@));
        }
        assert(before.len() == assigned@.len());
        a += 1;
    }
    assert(assignments.deep_view().take(a as int) =~= assignments.deep_view());
    assigned
}

} // verus!
