//! The state of one client session: its prepared statements and its
//! portals, each under a name.

use crate::ast::Statement;
use crate::session::statement::{Portal, PortalModel, PreparedStatement, PreparedStatementModel};
use crate::sql_types::PostgreSqlFormat;
use vstd::hash_map::StringHashMap;
use vstd::prelude::*;

pub mod statement;

verus! {

/// The mathematical value of a [`Session`].
pub struct SessionModel {
    pub prepared_statements: Map<Seq<char>, PreparedStatementModel>,
    pub portals: Map<Seq<char>, PortalModel>,
}

impl SessionModel {
    /// Every portal names a prepared statement of the session.
    pub open spec fn consistent(self) -> bool {
        forall|name: Seq<char>| #[trigger]
            self.portals.contains_key(name) ==> self.prepared_statements.contains_key(
                self.portals[name].statement_name,
            )
    }
}

/// The state of one session.
pub struct Session {
    /// The prepared statements, each under its name.
    prepared_statements: StringHashMap<PreparedStatement>,
    /// The portals, each under its name.
    portals: StringHashMap<Portal>,
}

impl View for Session {
    type V = SessionModel;

    closed spec fn view(&self) -> SessionModel {
        SessionModel {
            prepared_statements: Map::new(
                |name: Seq<char>| self.prepared_statements@.contains_key(name),
                |name: Seq<char>| self.prepared_statements@[name]@,
            ),
            portals: Map::new(
                |name: Seq<char>| self.portals@.contains_key(name),
                |name: Seq<char>| self.portals@[name]@,
            ),
        }
    }
}

impl Session {
    /// A session without statements and portals.
    pub fn new() -> (session: Session)
        ensures
            session@.prepared_statements == Map::<Seq<char>, PreparedStatementModel>::empty(),
            session@.portals == Map::<Seq<char>, PortalModel>::empty(),
    {
        let session = Session {
            prepared_statements: StringHashMap::new(),
            portals: StringHashMap::new(),
        };
        assert(session@.prepared_statements =~= Map::<Seq<char>, PreparedStatementModel>::empty());
        assert(session@.portals =~= Map::<Seq<char>, PortalModel>::empty());
        session
    }

    /// The prepared statement of that name, if the session has one.
    pub fn get_prepared_statement(&self, name: &str) -> (found: Option<&PreparedStatement>)
        ensures
            found is Some <==> self@.prepared_statements.contains_key(name@),
            found matches Some(prepared) ==> prepared@ == self@.prepared_statements[name@],
    {
        self.prepared_statements.get(name)
    }

    /// Stores a prepared statement under a name; one that stood under that
    /// name is replaced.
    pub fn set_prepared_statement(&mut self, name: String, statement: PreparedStatement)
        ensures
            final(self)@.prepared_statements == old(self)@.prepared_statements.insert(
                name@,
                statement@,
            ),
            final(self)@.portals == old(self)@.portals,
            old(self)@.consistent() ==> final(self)@.consistent(),
    {
        self.prepared_statements.insert(name, statement);
        assert(self@.prepared_statements =~= old(self)@.prepared_statements.insert(
            name@,
            statement@,
        ));
        assert(self@.portals =~= old(self)@.portals);
        assert forall|other: Seq<char>| old(self)@.consistent() && #[trigger]
            self@.portals.contains_key(other) implies self@.prepared_statements.contains_key(
            self@.portals[other].statement_name,
        ) by {
            assert(old(self)@.portals.contains_key(other));
        }
    }

    /// The portal of that name, if the session has one.
    pub fn get_portal(&self, name: &str) -> (found: Option<&Portal>)
        ensures
            found is Some <==> self@.portals.contains_key(name@),
            found matches Some(portal) ==> portal@ == self@.portals[name@],
    {
        self.portals.get(name)
    }

    /// Stores a portal under a name, with the name of the statement that it
    /// was bound from, the bound statement and the formats of the result;
    /// one that stood under that name is replaced.
    pub fn set_portal(
        &mut self,
        portal_name: String,
        statement_name: String,
        stmt: Statement,
        result_formats: Vec<PostgreSqlFormat>,
    )
        ensures
            final(self)@.portals == old(self)@.portals.insert(
                portal_name@,
                PortalModel {
                    statement_name: statement_name@,
                    stmt: stmt@,
                    result_formats: result_formats@,
                },
            ),
            final(self)@.prepared_statements == old(self)@.prepared_statements,
            old(self)@.consistent() && old(self)@.prepared_statements.contains_key(
                statement_name@,
            ) ==> final(self)@.consistent(),
    {
        let portal = Portal::new(statement_name, stmt, result_formats);
        self.portals.insert(portal_name, portal);
        assert(self@.portals =~= old(self)@.portals.insert(portal_name@, portal@));
        assert(self@.prepared_statements =~= old(self)@.prepared_statements);
        assert forall|other: Seq<char>|
            old(self)@.consistent() && old(self)@.prepared_statements.contains_key(
                statement_name@,
            ) && #[trigger] self@.portals.contains_key(
                other,
            ) implies self@.prepared_statements.contains_key(
            self@.portals[other].statement_name,
        ) by {
            if other != portal_name@ {
                assert(old(self)@.portals.contains_key(other));
            }
        }
    }
}

} // verus!
