//! What can go wrong.

use vstd::prelude::*;

verus! {

/// Why a connection could not be opened or closed.
#[derive(Debug, PartialEq, Eq)]
pub enum ConnectionError {
    /// The transport to the server failed.
    ConnectionFailed { host: String, port: u16, message: String },
    /// The server did not accept the credentials.
    AuthenticationFailed(String),
    /// A failure that another layer met, in its words.
    Other(String),
}

/// Why a query, a prepared statement or a transaction failed.
#[derive(Debug, PartialEq, Eq)]
pub enum QueryError {
    /// The session cannot take a request now.
    InvalidState(String),
    /// The server did not answer in time.
    Timeout { timeout_ms: u64 },
    /// The server refused the request, or did not get it.
    ExecutionFailed(String),
    /// There is a result set where a row count was expected.
    NoResultSet(String),
    /// The prepared statement has been closed.
    StatementClosed,
    /// The server sent a result set where a row count was expected.
    UnexpectedResultSet,
    /// A transaction could not be begun or ended.
    TransactionError(String),
    /// A failure that another layer met, in its words.
    Other(String),
}

/// A [`QueryError`] with its texts as sequences of characters.
pub enum QueryErrorView {
    InvalidState(Seq<char>),
    Timeout { timeout_ms: u64 },
    ExecutionFailed(Seq<char>),
    NoResultSet(Seq<char>),
    StatementClosed,
    UnexpectedResultSet,
    TransactionError(Seq<char>),
    Other(Seq<char>),
}

impl View for QueryError {
    type V = QueryErrorView;

    open spec fn view(&self) -> QueryErrorView {
        match self {
            QueryError::InvalidState(message) => QueryErrorView::InvalidState(message@),
            QueryError::Timeout { timeout_ms } => QueryErrorView::Timeout { timeout_ms: *timeout_ms },
            QueryError::ExecutionFailed(message) => QueryErrorView::ExecutionFailed(message@),
            QueryError::NoResultSet(message) => QueryErrorView::NoResultSet(message@),
            QueryError::StatementClosed => QueryErrorView::StatementClosed,
            QueryError::UnexpectedResultSet => QueryErrorView::UnexpectedResultSet,
            QueryError::TransactionError(message) => QueryErrorView::TransactionError(message@),
            QueryError::Other(message) => QueryErrorView::Other(message@),
        }
    }
}

/// Why a builder did not lead to a connection.
#[derive(Debug, PartialEq, Eq)]
pub enum ExasolError {
    /// The connection could not be opened.
    Connection(ConnectionError),
    /// The parameters do not make up a connection.
    Parameters(String),
}

impl From<ConnectionError> for ExasolError {
    fn from(error: ConnectionError) -> (wrapped: ExasolError)
        ensures
            wrapped == ExasolError::Connection(error),
    {
        ExasolError::Connection(error)
    }
}

impl vstd::std_specs::convert::FromSpecImpl<ConnectionError> for ExasolError {
    open spec fn obeys_from_spec() -> bool {
        true
    }

    open spec fn from_spec(error: ConnectionError) -> ExasolError {
        ExasolError::Connection(error)
    }
}

/// The view of an error shows its kind and all of its text.
pub proof fn error_view_keeps_kind_and_text(message: String, timeout_ms: u64)
    ensures
        QueryError::InvalidState(message)@ == QueryErrorView::InvalidState(message@),
        (QueryError::Timeout { timeout_ms })@ == (QueryErrorView::Timeout { timeout_ms }),
        QueryError::ExecutionFailed(message)@ == QueryErrorView::ExecutionFailed(message@),
        QueryError::NoResultSet(message)@ == QueryErrorView::NoResultSet(message@),
        QueryError::StatementClosed@ == QueryErrorView::StatementClosed,
        QueryError::UnexpectedResultSet@ == QueryErrorView::UnexpectedResultSet,
        QueryError::TransactionError(message)@ == QueryErrorView::TransactionError(message@),
        QueryError::Other(message)@ == QueryErrorView::Other(message@),
{
}

/// A connection's error is wrapped, and stays what it was.
pub proof fn connection_error_is_wrapped(error: ConnectionError)
    ensures
        <ExasolError as vstd::std_specs::convert::FromSpec<ConnectionError>>::from_spec(error)
            == ExasolError::Connection(error),
{
}

} // verus!
