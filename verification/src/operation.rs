//! What a running operation asks for, what it is told, and where it goes from
//! there.

use vstd::prelude::*;
use crate::duration::Duration;
use crate::error::{QueryError, QueryErrorView};
use crate::session::{SessionInfo, SessionState};
use crate::statement::{Backend, PreparedStatement, QueryResult, ResultSet, Statement};

verus! {

/// Something that another layer has to do or to say.
pub enum Request<'a, B: Backend> {
    /// Can the session take a request now?
    ValidateReady,
    /// Put the parameter values into the text of the statement.
    BuildSql { stmt: &'a Statement<B> },
    /// Send the SQL to the server and wait that long for the answer.
    ExecuteQuery { sql: String, timeout: Duration },
    /// Lay out the parameter values of the prepared statement.
    BuildParameters { prepared: &'a PreparedStatement<B> },
    /// Have the server run the prepared statement that it knows by this
    /// handle.
    ExecutePrepared { handle: &'a B::Handle, parameters: B::Parameters },
    /// Have the server prepare a statement.
    CreatePrepared { sql: String },
    /// Have the server let go of the prepared statement that the operation
    /// holds.
    ClosePrepared,
    /// Note that the session has just been used.
    UpdateActivity,
    /// Turn the server's answer into a result set.
    IntoResultSet { result: QueryResult<B> },
    /// Read all the rows.
    FetchAll { result_set: ResultSet<B> },
    /// Have the server commit after each statement, or not.
    SetAutocommit { enabled: bool },
    /// Have the session begin a transaction.
    BeginTransaction,
    /// Have the session end its transaction, with its changes kept.
    CommitTransaction,
    /// Have the session end its transaction, with its changes dropped.
    RollbackTransaction,
}

/// What came of sending SQL to the server.
pub enum QueryAnswer<B: Backend> {
    /// No answer came in time.
    TimedOut,
    /// The server answered, or the transport failed.
    Answered(Result<QueryResult<B>, String>),
}

/// What came of a request.
pub enum Reply<B: Backend> {
    /// To `ValidateReady`.
    Ready(Result<(), String>),
    /// To `BuildSql`.
    Sql(Result<String, QueryError>),
    /// To `ExecuteQuery`.
    Query(QueryAnswer<B>),
    /// To `BuildParameters`.
    Parameters(Result<B::Parameters, QueryError>),
    /// To `ExecutePrepared`.
    Executed(Result<QueryResult<B>, String>),
    /// To `CreatePrepared`.
    Handle(Result<B::Handle, String>),
    /// To `UpdateActivity`.
    Updated,
    /// To `IntoResultSet`.
    ResultSet(Result<ResultSet<B>, QueryError>),
    /// To `FetchAll`.
    Batches(Result<Vec<B::Batch>, QueryError>),
    /// To `ClosePrepared`, `SetAutocommit`, `BeginTransaction`,
    /// `CommitTransaction` and `RollbackTransaction`.
    Done(Result<(), String>),
}

/// What an operation leads to.
pub enum Value<B: Backend> {
    Unit,
    RowCount(i64),
    ResultSet(ResultSet<B>),
    Batches(Vec<B::Batch>),
    Prepared(PreparedStatement<B>),
    Closed(PreparedStatement<B>),
}

/// What a result set is wanted for.
pub enum Purpose {
    /// The caller gets it.
    ResultSet,
    /// The caller gets all of its rows.
    Batches,
    /// The caller gets its row count.
    RowCount,
    /// The server has committed; the session is to follow.
    Commit,
    /// The server has rolled back; the session is to follow.
    Rollback,
    /// The server has opened this schema; the session is to follow.
    OpenSchema(String),
}

impl Clone for Purpose {
    fn clone(&self) -> (copy: Purpose)
        ensures
            copy == *self,
    {
        match self {
            Purpose::ResultSet => Purpose::ResultSet,
            Purpose::Batches => Purpose::Batches,
            Purpose::RowCount => Purpose::RowCount,
            Purpose::Commit => Purpose::Commit,
            Purpose::Rollback => Purpose::Rollback,
            Purpose::OpenSchema(schema) => Purpose::OpenSchema(schema.clone()),
        }
    }
}

/// What a prepared statement is run for.
#[derive(Clone, Copy, Debug, PartialEq, Eq, Structural)]
pub enum PreparedPurpose {
    /// The caller gets the result set.
    ResultSet,
    /// The caller gets the server's row count.
    RowCount,
}

/// What is to be done once the session can take a request.
pub enum Task<'a, B: Backend> {
    Statement(&'a Statement<B>, Purpose),
    Prepare { sql: String },
    Prepared(&'a PreparedStatement<B>, PreparedPurpose),
}

/// What is to be done with an answer once the session is back at rest.
pub enum Followup {
    Convert(Purpose),
    Count,
}

/// An operation that waits for a reply.
pub enum Operation<'a, B: Backend> {
    Validating(Task<'a, B>),
    BuildingSql { timeout_ms: u64, purpose: Purpose },
    Querying { timeout_ms: u64, purpose: Purpose },
    BuildingParameters(&'a PreparedStatement<B>, PreparedPurpose),
    ExecutingPrepared(PreparedPurpose),
    Updating { result: QueryResult<B>, followup: Followup },
    Converting(Purpose),
    Fetching,
    Preparing,
    ClosingPrepared { stmt: PreparedStatement<B> },
    DisablingAutocommit,
    Beginning,
    Ending,
}

/// How an operation goes on.
pub enum Next<'a, B: Backend> {
    /// The request is to be performed, and the operation resumed with what
    /// came of it.
    Ask(Request<'a, B>, Operation<'a, B>),
    /// The operation is over.
    Done(Result<Value<B>, QueryError>),
    /// The reply does not answer what the operation had asked. Nothing has
    /// happened.
    Misplaced(Operation<'a, B>, Reply<B>),
}

/// A [`Next`] with the texts of its error as sequences of characters.
pub enum NextView<'a, B: Backend> {
    Ask(Request<'a, B>, Operation<'a, B>),
    Done(Result<Value<B>, QueryErrorView>),
    Misplaced(Operation<'a, B>, Reply<B>),
}

impl<'a, B: Backend> View for Next<'a, B> {
    type V = NextView<'a, B>;

    open spec fn view(&self) -> NextView<'a, B> {
        match *self {
            Next::Ask(request, operation) => NextView::Ask(request, operation),
            Next::Done(Ok(value)) => NextView::Done(Ok(value)),
            Next::Done(Err(error)) => NextView::Done(Err(error@)),
            Next::Misplaced(operation, reply) => NextView::Misplaced(operation, reply),
        }
    }
}

/// The message of the error for a result set where a row count was expected.
pub open spec fn no_row_count_text() -> Seq<char> {
    "Expected row count, got result set"@
}

/// What follows once the session has said whether it can take a request. It
/// is marked as busy before a statement is run, and not for a preparation.
/// Running a prepared statement for its row count is not counted as a query.
pub open spec fn after_validation<'a, B: Backend>(
    session: SessionInfo,
    task: Task<'a, B>,
    ready: Result<(), String>,
) -> (SessionInfo, NextView<'a, B>) {
    match ready {
        Err(message) => (session, NextView::Done(Err(QueryErrorView::InvalidState(message@)))),
        Ok(()) => match task {
            Task::Statement(stmt, purpose) => (
                session.executing().with_query_counted(),
                NextView::Ask(
                    Request::BuildSql { stmt },
                    Operation::BuildingSql { timeout_ms: stmt.timeout_ms, purpose },
                ),
            ),
            Task::Prepare { sql } => (
                session,
                NextView::Ask(Request::CreatePrepared { sql }, Operation::Preparing),
            ),
            Task::Prepared(stmt, purpose) => (
                if purpose is ResultSet {
                    session.executing().with_query_counted()
                } else {
                    session.executing()
                },
                NextView::Ask(
                    Request::BuildParameters { prepared: stmt },
                    Operation::BuildingParameters(stmt, purpose),
                ),
            ),
        },
    }
}

/// What follows the server's answer to a statement: the session is back at
/// rest if the answer is a result, and stays busy if it is a failure.
pub open spec fn after_execution<'a, B: Backend>(
    session: SessionInfo,
    answer: Result<QueryResult<B>, String>,
    followup: Followup,
) -> (SessionInfo, NextView<'a, B>) {
    match answer {
        Ok(result) => (
            session.settled(),
            NextView::Ask(Request::UpdateActivity, Operation::Updating { result, followup }),
        ),
        Err(message) => (session, NextView::Done(Err(QueryErrorView::ExecutionFailed(message@)))),
    }
}

/// What follows the note that the session has been used.
pub open spec fn after_update<'a, B: Backend>(
    result: QueryResult<B>,
    followup: Followup,
) -> NextView<'a, B> {
    match followup {
        Followup::Convert(purpose) => NextView::Ask(
            Request::IntoResultSet { result },
            Operation::Converting(purpose),
        ),
        Followup::Count => match result {
            QueryResult::RowCount { count } => NextView::Done(Ok(Value::RowCount(count))),
            QueryResult::ResultSet { data } => NextView::Done(
                Err(QueryErrorView::UnexpectedResultSet),
            ),
        },
    }
}

/// What follows once there is a result set. All but the two purposes that
/// want its rows need a row count.
pub open spec fn after_conversion<'a, B: Backend>(
    session: SessionInfo,
    result_set: ResultSet<B>,
    purpose: Purpose,
) -> (SessionInfo, NextView<'a, B>) {
    match (purpose, result_set.row_count) {
        (Purpose::ResultSet, _) => (session, NextView::Done(Ok(Value::ResultSet(result_set)))),
        (Purpose::Batches, _) => (
            session,
            NextView::Ask(Request::FetchAll { result_set }, Operation::Fetching),
        ),
        (_, None) => (
            session,
            NextView::Done(Err(QueryErrorView::NoResultSet(no_row_count_text()))),
        ),
        (Purpose::RowCount, Some(count)) => (session, NextView::Done(Ok(Value::RowCount(count)))),
        (Purpose::Commit, Some(_)) => (
            session,
            NextView::Ask(Request::CommitTransaction, Operation::Ending),
        ),
        (Purpose::Rollback, Some(_)) => (
            session,
            NextView::Ask(Request::RollbackTransaction, Operation::Ending),
        ),
        (Purpose::OpenSchema(schema), Some(_)) => (
            session.with_schema(schema),
            NextView::Done(Ok(Value::Unit)),
        ),
    }
}

/// How an operation goes on after a reply, and what becomes of the session.
pub open spec fn resumed<'a, B: Backend>(
    session: SessionInfo,
    operation: Operation<'a, B>,
    reply: Reply<B>,
) -> (SessionInfo, NextView<'a, B>) {
    match (operation, reply) {
        (Operation::Validating(task), Reply::Ready(ready)) => after_validation(
            session,
            task,
            ready,
        ),
        (Operation::BuildingSql { timeout_ms, purpose }, Reply::Sql(built)) => match built {
            Ok(sql) => (
                session,
                NextView::Ask(
                    Request::ExecuteQuery { sql, timeout: Duration::of_millis(timeout_ms) },
                    Operation::Querying { timeout_ms, purpose },
                ),
            ),
            Err(error) => (session, NextView::Done(Err(error@))),
        },
        (Operation::Querying { timeout_ms, purpose }, Reply::Query(answer)) => match answer {
            QueryAnswer::TimedOut => (
                session,
                NextView::Done(Err(QueryErrorView::Timeout { timeout_ms })),
            ),
            QueryAnswer::Answered(result) => after_execution(
                session,
                result,
                Followup::Convert(purpose),
            ),
        },
        (Operation::BuildingParameters(stmt, purpose), Reply::Parameters(built)) => match built {
            Ok(parameters) => (
                session,
                NextView::Ask(
                    Request::ExecutePrepared { handle: &stmt.handle, parameters },
                    Operation::ExecutingPrepared(purpose),
                ),
            ),
            Err(error) => (session, NextView::Done(Err(error@))),
        },
        (Operation::ExecutingPrepared(purpose), Reply::Executed(result)) => after_execution(
            session,
            result,
            match purpose {
                PreparedPurpose::ResultSet => Followup::Convert(Purpose::ResultSet),
                PreparedPurpose::RowCount => Followup::Count,
            },
        ),
        (Operation::Updating { result, followup }, Reply::Updated) => (
            session,
            after_update(result, followup),
        ),
        (Operation::Converting(purpose), Reply::ResultSet(converted)) => match converted {
            Ok(result_set) => after_conversion(session, result_set, purpose),
            Err(error) => (session, NextView::Done(Err(error@))),
        },
        (Operation::Fetching, Reply::Batches(fetched)) => match fetched {
            Ok(batches) => (session, NextView::Done(Ok(Value::Batches(batches)))),
            Err(error) => (session, NextView::Done(Err(error@))),
        },
        (Operation::Preparing, Reply::Handle(created)) => match created {
            Ok(handle) => (
                session,
                NextView::Done(
                    Ok(Value::Prepared(PreparedStatement { handle, bindings: None, closed: false })),
                ),
            ),
            Err(message) => (
                session,
                NextView::Done(Err(QueryErrorView::ExecutionFailed(message@))),
            ),
        },
        (Operation::ClosingPrepared { stmt }, Reply::Done(closed)) => match closed {
            Ok(()) => (
                session,
                NextView::Done(
                    Ok(Value::Closed(PreparedStatement { closed: true, ..stmt })),
                ),
            ),
            Err(message) => (
                session,
                NextView::Done(Err(QueryErrorView::ExecutionFailed(message@))),
            ),
        },
        (Operation::DisablingAutocommit, Reply::Done(disabled)) => match disabled {
            Ok(()) => (session, NextView::Ask(Request::BeginTransaction, Operation::Beginning)),
            Err(message) => (
                session,
                NextView::Done(Err(QueryErrorView::TransactionError(message@))),
            ),
        },
        (Operation::Beginning, Reply::Done(begun)) => match begun {
            Ok(()) => (session.with_transaction(true), NextView::Done(Ok(Value::Unit))),
            Err(message) => (
                session,
                NextView::Done(Err(QueryErrorView::TransactionError(message@))),
            ),
        },
        (Operation::Ending, Reply::Done(ended)) => match ended {
            Ok(()) => (session.with_transaction(false), NextView::Done(Ok(Value::Unit))),
            Err(message) => (
                session,
                NextView::Done(Err(QueryErrorView::TransactionError(message@))),
            ),
        },
        _ => (session, NextView::Misplaced(operation, reply)),
    }
}

impl SessionInfo {
    fn validated<'a, B: Backend>(&mut self, task: Task<'a, B>, ready: Result<(), String>) -> (next:
        Next<'a, B>)
        ensures
            (*final(self), next@) == after_validation(*old(self), task, ready),
    {
        match ready {
            Err(message) => Next::Done(Err(QueryError::InvalidState(message))),
            Ok(()) => match task {
                Task::Statement(stmt, purpose) => {
                    self.state = SessionState::Executing;
                    self.increment_query_count();
                    Next::Ask(
                        Request::BuildSql { stmt },
                        Operation::BuildingSql { timeout_ms: stmt.timeout_ms, purpose },
                    )
                },
                Task::Prepare { sql } => Next::Ask(
                    Request::CreatePrepared { sql },
                    Operation::Preparing,
                ),
                Task::Prepared(stmt, purpose) => {
                    self.state = SessionState::Executing;
                    if purpose == PreparedPurpose::ResultSet {
                        self.increment_query_count();
                    }
                    Next::Ask(
                        Request::BuildParameters { prepared: stmt },
                        Operation::BuildingParameters(stmt, purpose),
                    )
                },
            },
        }
    }

    fn executed<'a, B: Backend>(
        &mut self,
        answer: Result<QueryResult<B>, String>,
        followup: Followup,
    ) -> (next: Next<'a, B>)
        ensures
            (*final(self), next@) == after_execution(*old(self), answer, followup),
    {
        match answer {
            Ok(result) => {
                self.settle();
                Next::Ask(Request::UpdateActivity, Operation::Updating { result, followup })
            },
            Err(message) => Next::Done(Err(QueryError::ExecutionFailed(message))),
        }
    }

    fn converted<'a, B: Backend>(&mut self, result_set: ResultSet<B>, purpose: Purpose) -> (next:
        Next<'a, B>)
        ensures
            (*final(self), next@) == after_conversion(*old(self), result_set, purpose),
    {
        match (purpose, result_set.row_count) {
            (Purpose::ResultSet, _) => Next::Done(Ok(Value::ResultSet(result_set))),
            (Purpose::Batches, _) => Next::Ask(
                Request::FetchAll { result_set },
                Operation::Fetching,
            ),
            (_, None) => Next::Done(
                Err(QueryError::NoResultSet("Expected row count, got result set".to_string())),
            ),
            (Purpose::RowCount, Some(count)) => Next::Done(Ok(Value::RowCount(count))),
            (Purpose::Commit, Some(_)) => Next::Ask(Request::CommitTransaction, Operation::Ending),
            (Purpose::Rollback, Some(_)) => Next::Ask(
                Request::RollbackTransaction,
                Operation::Ending,
            ),
            (Purpose::OpenSchema(schema), Some(_)) => {
                self.current_schema = Some(schema);
                Next::Done(Ok(Value::Unit))
            },
        }
    }

    /// Goes on with an operation after a reply.
    pub fn resume<'a, B: Backend>(&mut self, operation: Operation<'a, B>, reply: Reply<B>) -> (next:
        Next<'a, B>)
        ensures
            (*final(self), next@) == resumed(*old(self), operation, reply),
            old(self).consistent() ==> final(self).consistent(),
    {
        match (operation, reply) {
            (Operation::Validating(task), Reply::Ready(ready)) => self.validated(task, ready),
            (Operation::BuildingSql { timeout_ms, purpose }, Reply::Sql(built)) => match built {
                Ok(sql) => Next::Ask(
                    Request::ExecuteQuery { sql, timeout: Duration::from_millis(timeout_ms) },
                    Operation::Querying { timeout_ms, purpose },
                ),
                Err(error) => Next::Done(Err(error)),
            },
            (Operation::Querying { timeout_ms, purpose }, Reply::Query(answer)) => match answer {
                QueryAnswer::TimedOut => Next::Done(Err(QueryError::Timeout { timeout_ms })),
                QueryAnswer::Answered(result) => self.executed(result, Followup::Convert(purpose)),
            },
            (Operation::BuildingParameters(stmt, purpose), Reply::Parameters(built)) => match built {
                Ok(parameters) => Next::Ask(
                    Request::ExecutePrepared { handle: &stmt.handle, parameters },
                    Operation::ExecutingPrepared(purpose),
                ),
                Err(error) => Next::Done(Err(error)),
            },
            (Operation::ExecutingPrepared(purpose), Reply::Executed(result)) => {
                let followup = match purpose {
                    PreparedPurpose::ResultSet => Followup::Convert(Purpose::ResultSet),
                    PreparedPurpose::RowCount => Followup::Count,
                };
                self.executed(result, followup)
            },
            (Operation::Updating { result, followup }, Reply::Updated) => match followup {
                Followup::Convert(purpose) => Next::Ask(
                    Request::IntoResultSet { result },
                    Operation::Converting(purpose),
                ),
                Followup::Count => match result {
                    QueryResult::RowCount { count } => Next::Done(Ok(Value::RowCount(count))),
                    QueryResult::ResultSet { data } => Next::Done(
                        Err(QueryError::UnexpectedResultSet),
                    ),
                },
            },
            (Operation::Converting(purpose), Reply::ResultSet(converted)) => match converted {
                Ok(result_set) => self.converted(result_set, purpose),
                Err(error) => Next::Done(Err(error)),
            },
            (Operation::Fetching, Reply::Batches(fetched)) => match fetched {
                Ok(batches) => Next::Done(Ok(Value::Batches(batches))),
                Err(error) => Next::Done(Err(error)),
            },
            (Operation::Preparing, Reply::Handle(created)) => match created {
                Ok(handle) => Next::Done(Ok(Value::Prepared(PreparedStatement::new(handle)))),
                Err(message) => Next::Done(Err(QueryError::ExecutionFailed(message))),
            },
            (Operation::ClosingPrepared { stmt }, Reply::Done(closed)) => match closed {
                Ok(()) => {
                    let mut stmt = stmt;
                    stmt.mark_closed();
                    Next::Done(Ok(Value::Closed(stmt)))
                },
                Err(message) => Next::Done(Err(QueryError::ExecutionFailed(message))),
            },
            (Operation::DisablingAutocommit, Reply::Done(disabled)) => match disabled {
                Ok(()) => Next::Ask(Request::BeginTransaction, Operation::Beginning),
                Err(message) => Next::Done(Err(QueryError::TransactionError(message))),
            },
            (Operation::Beginning, Reply::Done(begun)) => match begun {
                Ok(()) => {
                    self.set_transaction(true);
                    Next::Done(Ok(Value::Unit))
                },
                Err(message) => Next::Done(Err(QueryError::TransactionError(message))),
            },
            (Operation::Ending, Reply::Done(ended)) => match ended {
                Ok(()) => {
                    self.set_transaction(false);
                    Next::Done(Ok(Value::Unit))
                },
                Err(message) => Next::Done(Err(QueryError::TransactionError(message))),
            },
            (operation, reply) => Next::Misplaced(operation, reply),
        }
    }
}

} // verus!
