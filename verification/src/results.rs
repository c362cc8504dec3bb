//! What the engine tells a client: query events, query errors, and the
//! sender that keeps them in the order in which they were produced.

use crate::sql_types::PostgreSqlType;
use crate::text::{clone_rows, clone_strings};
use vstd::prelude::*;

verus! {

/// Column names and protocol types of a result, in selection order.
pub type Description = Vec<(String, PostgreSqlType)>;

/// The mathematical value of a [`Description`].
pub type DescriptionModel = Seq<(Seq<char>, PostgreSqlType)>;

/// A successful step of a request.
#[derive(Debug, PartialEq, Eq)]
pub enum QueryEvent {
    SchemaCreated,
    SchemaDropped,
    TableCreated,
    TableDropped,
    VariableSet,
    TransactionStarted,
    RecordsInserted(usize),
    RecordsSelected(Description, Vec<Vec<String>>),
    RecordsUpdated(usize),
    RecordsDeleted(usize),
    PreparedStatementDescribed(Vec<PostgreSqlType>, Description),
    QueryComplete,
    ParseComplete,
    BindComplete,
}

/// The mathematical value of a [`QueryEvent`].
pub enum QueryEventModel {
    SchemaCreated,
    SchemaDropped,
    TableCreated,
    TableDropped,
    VariableSet,
    TransactionStarted,
    RecordsInserted(nat),
    RecordsSelected(DescriptionModel, Seq<Seq<Seq<char>>>),
    RecordsUpdated(nat),
    RecordsDeleted(nat),
    PreparedStatementDescribed(Seq<PostgreSqlType>, DescriptionModel),
    QueryComplete,
    ParseComplete,
    BindComplete,
}

/// A violation that is reported to the client and does not end the session.
#[derive(Debug, PartialEq, Eq)]
pub enum QueryError {
    SyntaxError(String),
    FeatureNotSupported(String),
    ProtocolViolation(String),
    InvalidParameterValue(String),
    SchemaAlreadyExists(String),
    SchemaDoesNotExist(String),
    TableAlreadyExists(String),
    TableDoesNotExist(String),
    ColumnDoesNotExist(Vec<String>),
    PreparedStatementDoesNotExist(String),
    PortalDoesNotExist(String),
}

/// The mathematical value of a [`QueryError`].
pub enum QueryErrorModel {
    SyntaxError(Seq<char>),
    FeatureNotSupported(Seq<char>),
    ProtocolViolation(Seq<char>),
    InvalidParameterValue(Seq<char>),
    SchemaAlreadyExists(Seq<char>),
    SchemaDoesNotExist(Seq<char>),
    TableAlreadyExists(Seq<char>),
    TableDoesNotExist(Seq<char>),
    ColumnDoesNotExist(Seq<Seq<char>>),
    PreparedStatementDoesNotExist(Seq<char>),
    PortalDoesNotExist(Seq<char>),
}

/// One message to the client, as a mathematical value.
pub type Message = Result<QueryEventModel, QueryErrorModel>;

impl View for QueryEvent {
    type V = QueryEventModel;

    open spec fn view(&self) -> QueryEventModel {
        match self {
            QueryEvent::SchemaCreated => QueryEventModel::SchemaCreated,
            QueryEvent::SchemaDropped => QueryEventModel::SchemaDropped,
            QueryEvent::TableCreated => QueryEventModel::TableCreated,
            QueryEvent::TableDropped => QueryEventModel::TableDropped,
            QueryEvent::VariableSet => QueryEventModel::VariableSet,
            QueryEvent::TransactionStarted => QueryEventModel::TransactionStarted,
            QueryEvent::RecordsInserted(n) => QueryEventModel::RecordsInserted(*n as nat),
            QueryEvent::RecordsSelected(description, rows) => QueryEventModel::RecordsSelected(
                description.deep_view(),
                rows.deep_view(),
            ),
            QueryEvent::RecordsUpdated(n) => QueryEventModel::RecordsUpdated(*n as nat),
            QueryEvent::RecordsDeleted(n) => QueryEventModel::RecordsDeleted(*n as nat),
            QueryEvent::PreparedStatementDescribed(
                param_types,
                description,
            ) => QueryEventModel::PreparedStatementDescribed(
                param_types@,
                description.deep_view(),
            ),
            QueryEvent::QueryComplete => QueryEventModel::QueryComplete,
            QueryEvent::ParseComplete => QueryEventModel::ParseComplete,
            QueryEvent::BindComplete => QueryEventModel::BindComplete,
        }
    }
}

impl View for QueryError {
    type V = QueryErrorModel;

    open spec fn view(&self) -> QueryErrorModel {
        match self {
            QueryError::SyntaxError(m) => QueryErrorModel::SyntaxError(m@),
            QueryError::FeatureNotSupported(m) => QueryErrorModel::FeatureNotSupported(m@),
            QueryError::ProtocolViolation(m) => QueryErrorModel::ProtocolViolation(m@),
            QueryError::InvalidParameterValue(m) => QueryErrorModel::InvalidParameterValue(m@),
            QueryError::SchemaAlreadyExists(m) => QueryErrorModel::SchemaAlreadyExists(m@),
            QueryError::SchemaDoesNotExist(m) => QueryErrorModel::SchemaDoesNotExist(m@),
            QueryError::TableAlreadyExists(m) => QueryErrorModel::TableAlreadyExists(m@),
            QueryError::TableDoesNotExist(m) => QueryErrorModel::TableDoesNotExist(m@),
            QueryError::ColumnDoesNotExist(names) => QueryErrorModel::ColumnDoesNotExist(
                names.deep_view(),
            ),
            QueryError::PreparedStatementDoesNotExist(
                m,
            ) => QueryErrorModel::PreparedStatementDoesNotExist(m@),
            QueryError::PortalDoesNotExist(m) => QueryErrorModel::PortalDoesNotExist(m@),
        }
    }
}

/// A copy of a list of parameter types.
pub fn clone_param_types(param_types: &[PostgreSqlType]) -> (copy: Vec<PostgreSqlType>)
    ensures
        copy@ == param_types@,
{
    let mut copy: Vec<PostgreSqlType> = Vec::new();
    let mut i: usize = 0;
    while i < param_types.len()
        invariant
            i <= param_types@.len(),
            copy@ == param_types@.take(i as int),
        decreases param_types@.len() - i,
    {
        copy.push(param_types[i]);
        i += 1;
        assert(copy@ =~= param_types@.take(i as int));
    }
    assert(copy@ =~= param_types@);
    copy
}

/// A copy of a row description.
pub fn clone_description(description: &[(String, PostgreSqlType)]) -> (copy: Description)
    ensures
        copy@.len() == description@.len(),
        forall|i: int|
            0 <= i < copy@.len() ==> (#[trigger] copy@[i]).0@ == description@[i].0@ && copy@[i].1
                == description@[i].1,
{
    let mut copy: Description = Vec::new();
    let mut i: usize = 0;
    while i < description.len()
        invariant
            i <= description@.len(),
            copy@.len() == i,
            forall|k: int|
                0 <= k < i ==> (#[trigger] copy@[k]).0@ == description@[k].0@ && copy@[k].1
                    == description@[k].1,
        decreases description@.len() - i,
    {
        copy.push((description[i].0.clone(), description[i].1));
        i += 1;
    }
    copy
}

impl Clone for QueryEvent {
    fn clone(&self) -> (copy: Self)
        ensures
            copy@ == self@,
    {
        match self {
            QueryEvent::SchemaCreated => QueryEvent::SchemaCreated,
            QueryEvent::SchemaDropped => QueryEvent::SchemaDropped,
            QueryEvent::TableCreated => QueryEvent::TableCreated,
            QueryEvent::TableDropped => QueryEvent::TableDropped,
            QueryEvent::VariableSet => QueryEvent::VariableSet,
            QueryEvent::TransactionStarted => QueryEvent::TransactionStarted,
            QueryEvent::RecordsInserted(n) => QueryEvent::RecordsInserted(*n),
            QueryEvent::RecordsSelected(description, rows) => {
                let copied = clone_description(description.as_slice());
                assert(copied.deep_view() =~= description.deep_view());
                QueryEvent::RecordsSelected(copied, clone_rows(rows))
            },
            QueryEvent::RecordsUpdated(n) => QueryEvent::RecordsUpdated(*n),
            QueryEvent::RecordsDeleted(n) => QueryEvent::RecordsDeleted(*n),
            QueryEvent::PreparedStatementDescribed(param_types, description) => {
                let copied = clone_description(description.as_slice());
                assert(copied.deep_view() =~= description.deep_view());
                let types = param_types.clone();
                assert(types@ =~= param_types@);
                QueryEvent::PreparedStatementDescribed(types, copied)
            },
            QueryEvent::QueryComplete => QueryEvent::QueryComplete,
            QueryEvent::ParseComplete => QueryEvent::ParseComplete,
            QueryEvent::BindComplete => QueryEvent::BindComplete,
        }
    }
}

impl Clone for QueryError {
    fn clone(&self) -> (copy: Self)
        ensures
            copy@ == self@,
    {
        match self {
            QueryError::SyntaxError(m) => QueryError::SyntaxError(m.clone()),
            QueryError::FeatureNotSupported(m) => QueryError::FeatureNotSupported(m.clone()),
            QueryError::ProtocolViolation(m) => QueryError::ProtocolViolation(m.clone()),
            QueryError::InvalidParameterValue(m) => QueryError::InvalidParameterValue(m.clone()),
            QueryError::SchemaAlreadyExists(m) => QueryError::SchemaAlreadyExists(m.clone()),
            QueryError::SchemaDoesNotExist(m) => QueryError::SchemaDoesNotExist(m.clone()),
            QueryError::TableAlreadyExists(m) => QueryError::TableAlreadyExists(m.clone()),
            QueryError::TableDoesNotExist(m) => QueryError::TableDoesNotExist(m.clone()),
            QueryError::ColumnDoesNotExist(names) => QueryError::ColumnDoesNotExist(
                clone_strings(names),
            ),
            QueryError::PreparedStatementDoesNotExist(
                m,
            ) => QueryError::PreparedStatementDoesNotExist(m.clone()),
            QueryError::PortalDoesNotExist(m) => QueryError::PortalDoesNotExist(m.clone()),
        }
    }
}

/// The mathematical value of a message handed to the sender.
pub open spec fn message_model(message: Result<QueryEvent, QueryError>) -> Message {
    match message {
        Ok(event) => Ok(event@),
        Err(error) => Err(error@),
    }
}

/// A fault of the engine itself, returned to the caller instead of being
/// sent to the client.
#[derive(Debug, PartialEq, Eq)]
pub enum SystemError {
    RuntimeCheckFailure(String),
}

/// What an operation of the engine returns.
pub type SystemResult<T> = Result<T, SystemError>;

impl View for SystemError {
    type V = Seq<char>;

    /// The diagnostic that the fault carries.
    open spec fn view(&self) -> Seq<char> {
        match self {
            SystemError::RuntimeCheckFailure(message) => message@,
        }
    }
}

impl Clone for SystemError {
    fn clone(&self) -> (copy: Self)
        ensures
            copy@ == self@,
    {
        match self {
            SystemError::RuntimeCheckFailure(message) => SystemError::RuntimeCheckFailure(
                message.clone(),
            ),
        }
    }
}

impl SystemError {
    /// The fault that ends an operation after a failed check.
    pub fn runtime_check_failure(message: String) -> (error: SystemError)
        ensures
            error@ == message@,
    {
        SystemError::RuntimeCheckFailure(message)
    }
}

/// The sender of a session: it keeps every message in the order in which the
/// engine produced it, until the messages are flushed to the client.
#[derive(Debug)]
pub struct Sender {
    messages: Vec<Result<QueryEvent, QueryError>>,
}

impl View for Sender {
    type V = Seq<Message>;

    /// The messages that were sent and not flushed, oldest first.
    closed spec fn view(&self) -> Seq<Message> {
        Seq::new(self.messages@.len(), |i: int| message_model(self.messages@[i]))
    }
}

impl Sender {
    /// A sender with nothing to flush.
    pub fn new() -> (sender: Sender)
        ensures
            sender@ == Seq::<Message>::empty(),
    {
        let sender = Sender { messages: Vec::new() };
        assert(sender@ =~= Seq::<Message>::empty());
        sender
    }

    /// Appends one message.
    pub fn send(&mut self, message: Result<QueryEvent, QueryError>)
        ensures
            final(self)@ == old(self)@.push(message_model(message)),
    {
        self.messages.push(message);
        assert(self@ =~= old(self)@.push(message_model(message)));
    }

    /// The number of messages that wait to be flushed.
    pub fn pending(&self) -> (count: usize)
        ensures
            count == self@.len(),
    {
        self.messages.len()
    }

    /// Hands out the messages that wait, oldest first, and keeps none.
    pub fn flush(&mut self) -> (messages: Vec<Result<QueryEvent, QueryError>>)
        ensures
            final(self)@ == Seq::<Message>::empty(),
            messages@.len() == old(self)@.len(),
            forall|i: int|
                0 <= i < messages@.len() ==> message_model(#[trigger] messages@[i]) == old(
                    self,
                )@[i],
    {
        let mut messages = Vec::new();
        std::mem::swap(&mut self.messages, &mut messages);
        assert(self@ =~= Seq::<Message>::empty());
        messages
    }
}

} // verus!
