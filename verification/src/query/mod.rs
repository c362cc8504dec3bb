//! Planning: name resolution, plans, the query processor and the binder
//! of parameters.

use crate::ast::ObjectName;
use crate::text::{concat3, join, joined};
use vstd::prelude::*;

pub mod bind;
pub mod plan;
pub mod process;

verus! {

/// The segments of a name written with dots between them.
pub open spec fn dotted(segments: Seq<Seq<char>>) -> Seq<char> {
    joined(segments, "."@)
}

/// The diagnostic for a schema name that is not one segment.
pub open spec fn schema_naming_message(segments: Seq<Seq<char>>) -> Seq<char> {
    "only unqualified schema names are supported, '"@ + dotted(segments) + "'"@
}

/// The diagnostic for a table name that is not a schema and a table.
pub open spec fn table_naming_message(segments: Seq<Seq<char>>) -> Seq<char> {
    if segments.len() == 1 {
        "unsupported table name '"@ + dotted(segments)
            + "'. All table names must be qualified"@
    } else {
        "unable to process table name '"@ + dotted(segments) + "'"@
    }
}

/// The name of a schema.
#[derive(Debug, PartialEq, Eq)]
pub struct SchemaId(String);

/// Why a qualified name is not the name of a schema.
#[derive(Debug, PartialEq, Eq)]
pub struct SchemaNamingError(pub String);

/// The name of a table: its schema and its own name.
#[derive(Debug, PartialEq, Eq)]
pub struct TableId(SchemaId, String);

/// Why a qualified name is not the name of a table.
#[derive(Debug, PartialEq, Eq)]
pub struct TableNamingError(pub String);

impl View for SchemaId {
    type V = Seq<char>;

    closed spec fn view(&self) -> Seq<char> {
        self.0@
    }
}

impl DeepView for SchemaId {
    type V = Seq<char>;

    open spec fn deep_view(&self) -> Seq<char> {
        self@
    }
}

impl View for TableId {
    type V = (Seq<char>, Seq<char>);

    /// The schema's name, then the table's name.
    closed spec fn view(&self) -> (Seq<char>, Seq<char>) {
        (self.0@, self.1@)
    }
}

impl DeepView for TableId {
    type V = (Seq<char>, Seq<char>);

    open spec fn deep_view(&self) -> (Seq<char>, Seq<char>) {
        self@
    }
}

/// The schema that `segments` names, or the diagnostic: a schema name has
/// exactly one segment.
pub open spec fn resolve_schema(segments: Seq<Seq<char>>) -> Result<Seq<char>, Seq<char>> {
    if segments.len() == 1 {
        Ok(segments[0])
    } else {
        Err(schema_naming_message(segments))
    }
}

/// The table that `segments` names, or the diagnostic: a table name has
/// exactly two segments, the schema and the table.
pub open spec fn resolve_table(segments: Seq<Seq<char>>) -> Result<
    (Seq<char>, Seq<char>),
    Seq<char>,
> {
    if segments.len() == 2 {
        Ok((segments[0], segments[1]))
    } else {
        Err(table_naming_message(segments))
    }
}

impl SchemaId {
    /// Resolves a qualified name to a schema.
    pub fn try_from(name: &ObjectName) -> (resolved: Result<SchemaId, SchemaNamingError>)
        ensures
            resolved is Err <==> name@.len() != 1,
            resolved matches Ok(id) ==> resolve_schema(name@) == Ok::<Seq<char>, Seq<char>>(id@),
            resolved matches Err(error) ==> resolve_schema(name@) == Err::<Seq<char>, Seq<char>>(
                error.0@,
            ),
    {
        if name.0.len() != 1 {
            let text = join(&name.0, ".");
            Err(
                SchemaNamingError(
                    concat3("only unqualified schema names are supported, '", text.as_str(), "'"),
                ),
            )
        } else {
            Ok(SchemaId(name.0[0].clone()))
        }
    }

    pub fn name(&self) -> (name: &str)
        ensures
            name@ == self@,
    {
        self.0.as_str()
    }
}

impl Clone for SchemaId {
    fn clone(&self) -> (copy: Self)
        ensures
            copy@ == self@,
    {
        SchemaId(self.0.clone())
    }
}

impl TableId {
    /// Resolves a qualified name to a table.
    pub fn try_from(name: &ObjectName) -> (resolved: Result<TableId, TableNamingError>)
        ensures
            resolved is Err <==> name@.len() != 2,
            resolved matches Ok(id) ==> resolve_table(name@) == Ok::<
                (Seq<char>, Seq<char>),
                Seq<char>,
            >(id@),
            resolved matches Err(error) ==> resolve_table(name@) == Err::<
                (Seq<char>, Seq<char>),
                Seq<char>,
            >(error.0@),
    {
        if name.0.len() == 1 {
            let text = join(&name.0, ".");
            Err(
                TableNamingError(
                    concat3(
                        "unsupported table name '",
                        text.as_str(),
                        "'. All table names must be qualified",
                    ),
                ),
            )
        } else if name.0.len() != 2 {
            let text = join(&name.0, ".");
            Err(TableNamingError(concat3("unable to process table name '", text.as_str(), "'")))
        } else {
            Ok(TableId(SchemaId(name.0[0].clone()), name.0[1].clone()))
        }
    }

    pub fn schema_name(&self) -> (name: &str)
        ensures
            name@ == self@.0,
    {
        self.0.0.as_str()
    }

    pub fn name(&self) -> (name: &str)
        ensures
            name@ == self@.1,
    {
        self.1.as_str()
    }
}

impl Clone for TableId {
    fn clone(&self) -> (copy: Self)
        ensures
            copy@ == self@,
    {
        TableId(self.0.clone(), self.1.clone())
    }
}

} // verus!
