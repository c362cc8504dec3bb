//! Prepared statements and portals.
//!
//! A `Parse` message names a statement and stores it in the session. A
//! `Bind` message names a portal and binds it to a stored statement: from
//! then on the statement of the portal has no free parameter. An `Execute`
//! message names a portal and runs its statement.

use crate::ast::{Statement, StatementModel};
use crate::results::{Description, DescriptionModel};
use crate::sql_types::{PostgreSqlFormat, PostgreSqlType};
use vstd::prelude::*;

verus! {

/// A prepared statement.
#[derive(Debug)]
pub struct PreparedStatement {
    /// The statement that will be bound to a portal.
    stmt: Statement,
    /// The types of the parameters.
    param_types: Vec<PostgreSqlType>,
    /// The description of the rows that the statement returns.
    description: Description,
}

/// The mathematical value of a [`PreparedStatement`].
pub struct PreparedStatementModel {
    pub stmt: StatementModel,
    pub param_types: Seq<PostgreSqlType>,
    pub description: DescriptionModel,
}

impl View for PreparedStatement {
    type V = PreparedStatementModel;

    closed spec fn view(&self) -> PreparedStatementModel {
        PreparedStatementModel {
            stmt: self.stmt@,
            param_types: self.param_types@,
            description: self.description.deep_view(),
        }
    }
}

impl PreparedStatement {
    /// Constructs a new `PreparedStatement`.
    pub fn new(
        stmt: Statement,
        param_types: Vec<PostgreSqlType>,
        description: Description,
    ) -> (prepared: PreparedStatement)
        ensures
            prepared@ == (PreparedStatementModel {
                stmt: stmt@,
                param_types: param_types@,
                description: description.deep_view(),
            }),
    {
        PreparedStatement { stmt, param_types, description }
    }

    /// Returns the prepared statement.
    pub fn stmt(&self) -> (stmt: &Statement)
        ensures
            stmt@ == self@.stmt,
    {
        &self.stmt
    }

    /// Returns the types of the parameters.
    pub fn param_types(&self) -> (param_types: &[PostgreSqlType])
        ensures
            param_types@ == self@.param_types,
    {
        self.param_types.as_slice()
    }

    /// Returns the description of the rows that will be returned.
    pub fn description(&self) -> (description: &[(String, PostgreSqlType)])
        ensures
            description@.len() == self@.description.len(),
            forall|i: int|
                0 <= i < description@.len() ==> (#[trigger] description@[i]).0@
                    == self@.description[i].0 && description@[i].1 == self@.description[i].1,
    {
        self.description.as_slice()
    }
}

/// A portal: a statement that is bound and ready to run.
#[derive(Debug)]
pub struct Portal {
    /// The name of the prepared statement that is bound to this portal.
    statement_name: String,
    /// The bound statement.
    stmt: Statement,
    /// The format of each column of the result.
    result_formats: Vec<PostgreSqlFormat>,
}

/// The mathematical value of a [`Portal`].
pub struct PortalModel {
    pub statement_name: Seq<char>,
    pub stmt: StatementModel,
    pub result_formats: Seq<PostgreSqlFormat>,
}

impl View for Portal {
    type V = PortalModel;

    closed spec fn view(&self) -> PortalModel {
        PortalModel {
            statement_name: self.statement_name@,
            stmt: self.stmt@,
            result_formats: self.result_formats@,
        }
    }
}

impl Portal {
    /// Constructs a new `Portal`.
    pub fn new(
        statement_name: String,
        stmt: Statement,
        result_formats: Vec<PostgreSqlFormat>,
    ) -> (portal: Self)
        ensures
            portal@ == (PortalModel {
                statement_name: statement_name@,
                stmt: stmt@,
                result_formats: result_formats@,
            }),
    {
        Self { statement_name, stmt, result_formats }
    }

    /// Returns the bound statement.
    pub fn stmt(&self) -> (stmt: &Statement)
        ensures
            stmt@ == self@.stmt,
    {
        &self.stmt
    }
}

} // verus!
