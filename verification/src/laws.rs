//! What holds of every operation, whatever the other layers answer.

use vstd::prelude::*;
use crate::connection::Connection;
use crate::duration::Duration;
use crate::error::{QueryError, QueryErrorView};
use crate::operation::{
    Followup, Next, NextView, Operation, PreparedPurpose, Purpose, QueryAnswer, Reply, Request,
    Task, Value,
};
use crate::run::{Answers, Run};
use crate::session::{SessionInfo, SessionState};
use crate::statement::{Backend, PreparedStatement, QueryResult, ResultSet, Statement};

verus! {

/// More requests than any operation makes.
pub open spec fn enough() -> nat {
    7
}

/// The run of an operation from its start.
pub open spec fn full_run<'a, B: Backend>(
    answers: Answers<B>,
    session: SessionInfo,
    start: Next<'a, B>,
) -> Run<'a, B> {
    crate::run::run(answers, session, start@, enough())
}

/// What came of a statement: the first failure on its way, or its result set.
pub open spec fn statement_result<B: Backend>(answers: Answers<B>, timeout_ms: u64) -> Result<
    ResultSet<B>,
    QueryErrorView,
> {
    if answers.ready is Err {
        Err(QueryErrorView::InvalidState(answers.ready->Err_0@))
    } else if answers.sql is Err {
        Err(answers.sql->Err_0@)
    } else if answers.query is TimedOut {
        Err(QueryErrorView::Timeout { timeout_ms })
    } else if answers.query->Answered_0 is Err {
        Err(QueryErrorView::ExecutionFailed(answers.query->Answered_0->Err_0@))
    } else if answers.result_set is Err {
        Err(answers.result_set->Err_0@)
    } else {
        Ok(answers.result_set->Ok_0)
    }
}

/// Whether the server has answered a statement with a result.
pub open spec fn server_answered<B: Backend>(answers: Answers<B>) -> bool {
    &&& answers.ready is Ok
    &&& answers.sql is Ok
    &&& answers.query matches QueryAnswer::Answered(Ok(_))
}

/// The row count of a result set, or the error that it has none.
pub open spec fn counted_rows<B: Backend>(result: Result<ResultSet<B>, QueryErrorView>) -> Result<
    i64,
    QueryErrorView,
> {
    match result {
        Ok(result_set) => match result_set.row_count {
            Some(count) => Ok(count),
            None => Err(
                QueryErrorView::NoResultSet(crate::operation::no_row_count_text()),
            ),
        },
        Err(error) => Err(error),
    }
}

/// The session after a statement: untouched if it could not take the request,
/// back at rest if the server answered, and still busy otherwise.
pub open spec fn session_after_statement<B: Backend>(
    answers: Answers<B>,
    session: SessionInfo,
) -> SessionInfo {
    if answers.ready is Err {
        session
    } else if server_answered(answers) {
        session.with_query_counted().settled()
    } else {
        session.with_query_counted().executing()
    }
}

/// The requests that a statement leads to. Each is made only if the one
/// before it went well.
pub open spec fn statement_requests<'a, B: Backend>(
    answers: Answers<B>,
    stmt: &'a Statement<B>,
) -> Seq<Request<'a, B>> {
    seq![Request::ValidateReady] + if answers.ready is Err {
        Seq::empty()
    } else {
        seq![Request::BuildSql { stmt }] + if answers.sql is Err {
            Seq::empty()
        } else {
            seq![
                Request::ExecuteQuery {
                    sql: answers.sql->Ok_0,
                    timeout: Duration::of_millis(stmt.timeout_ms),
                },
            ] + match answers.query {
                QueryAnswer::Answered(Ok(result)) => seq![
                    Request::UpdateActivity,
                    Request::IntoResultSet { result },
                ],
                _ => Seq::empty(),
            }
        }
    }
}

/// Running a statement for its result set ends, and gives the result set or
/// the first failure on the way. The server gets the SQL that was built from
/// this statement, only from a session that can take it, once, and with the
/// timeout of the statement.
pub proof fn execute_statement_run<B: Backend>(
    answers: Answers<B>,
    session: SessionInfo,
    stmt: &Statement<B>,
)
    ensures
        ({
            let run = full_run(
                answers,
                session,
                crate::connection::statement_start(stmt, Purpose::ResultSet),
            );
            &&& run.outcome == Some(
                match statement_result(answers, stmt.timeout_ms) {
                    Ok(result_set) => Ok(Value::<B>::ResultSet(result_set)),
                    Err(error) => Err(error),
                },
            )
            &&& run.session == session_after_statement(answers, session)
            &&& run.requests() == statement_requests(answers, stmt)
        }),
{
    reveal_with_fuel(crate::run::run, 8);
    let run = full_run(
        answers,
        session,
        crate::connection::statement_start(stmt, Purpose::ResultSet),
    );
    assert(run.requests() =~= statement_requests(answers, stmt));
}

/// While the server works on a statement, the session is marked as busy.
pub proof fn session_is_busy_while_executing<B: Backend>(
    answers: Answers<B>,
    session: SessionInfo,
    stmt: &Statement<B>,
    purpose: Purpose,
)
    ensures
        ({
            let run = full_run(
                answers,
                session,
                crate::connection::statement_start(stmt, purpose),
            );
            forall|i: int|
                0 <= i < run.asked.len() && #[trigger] run.asked[i].request is ExecuteQuery
                    ==> run.asked[i].session == session.with_query_counted().executing()
        }),
{
    reveal_with_fuel(crate::run::run, 8);
}

/// Running a statement for its row count goes as for its result set, and a
/// result without a row count is an error.
pub proof fn execute_statement_update_run<B: Backend>(
    answers: Answers<B>,
    session: SessionInfo,
    stmt: &Statement<B>,
)
    ensures
        ({
            let run = full_run(
                answers,
                session,
                crate::connection::statement_start(stmt, Purpose::RowCount),
            );
            &&& run.outcome == Some(
                match counted_rows(statement_result(answers, stmt.timeout_ms)) {
                    Ok(count) => Ok(Value::<B>::RowCount(count)),
                    Err(error) => Err(error),
                },
            )
            &&& run.session == session_after_statement(answers, session)
            &&& run.requests() == statement_requests(answers, stmt)
        }),
{
    reveal_with_fuel(crate::run::run, 8);
    let run = full_run(
        answers,
        session,
        crate::connection::statement_start(stmt, Purpose::RowCount),
    );
    assert(run.requests() =~= statement_requests(answers, stmt));
}

/// A query fetches the rows of the result set that the statement leads to,
/// and of no other.
pub proof fn query_run<B: Backend>(answers: Answers<B>, session: SessionInfo, stmt: &Statement<B>)
    ensures
        ({
            let run = full_run(
                answers,
                session,
                crate::connection::statement_start(stmt, Purpose::Batches),
            );
            &&& run.outcome == Some(
                match statement_result(answers, stmt.timeout_ms) {
                    Ok(result_set) => match answers.batches {
                        Ok(batches) => Ok(Value::<B>::Batches(batches)),
                        Err(error) => Err(error@),
                    },
                    Err(error) => Err(error),
                },
            )
            &&& run.session == session_after_statement(answers, session)
            &&& run.requests() == statement_requests(answers, stmt)
                + match statement_result(answers, stmt.timeout_ms) {
                Ok(result_set) => seq![Request::FetchAll { result_set }],
                Err(_) => Seq::empty(),
            }
        }),
{
    reveal_with_fuel(crate::run::run, 8);
    let run = full_run(
        answers,
        session,
        crate::connection::statement_start(stmt, Purpose::Batches),
    );
    assert(run.requests() =~= statement_requests(answers, stmt)
        + match statement_result(answers, stmt.timeout_ms) {
        Ok(result_set) => seq![Request::FetchAll { result_set }],
        Err(_) => Seq::empty(),
    });
}

/// A commit ends the transaction if and only if the server has committed and
/// the session agrees. The session is told only after the server has
/// committed; whatever fails, the transaction stays open.
pub proof fn commit_run<B: Backend>(answers: Answers<B>, session: SessionInfo, stmt: &Statement<B>)
    ensures
        ({
            let run = full_run(
                answers,
                session,
                crate::connection::statement_start(stmt, Purpose::Commit),
            );
            let server = counted_rows(statement_result(answers, stmt.timeout_ms));
            &&& run.outcome == Some(
                match server {
                    Ok(_) => match answers.committed {
                        Ok(()) => Ok(Value::<B>::Unit),
                        Err(message) => Err(QueryErrorView::TransactionError(message@)),
                    },
                    Err(error) => Err(error),
                },
            )
            &&& run.session == if run.succeeds() {
                session_after_statement(answers, session).with_transaction(false)
            } else {
                session_after_statement(answers, session)
            }
            &&& run.requests() == statement_requests(answers, stmt) + if server is Ok {
                seq![Request::CommitTransaction]
            } else {
                Seq::empty()
            }
        }),
{
    reveal_with_fuel(crate::run::run, 8);
    let run = full_run(
        answers,
        session,
        crate::connection::statement_start(stmt, Purpose::Commit),
    );
    let server = counted_rows(statement_result(answers, stmt.timeout_ms));
    assert(run.requests() =~= statement_requests(answers, stmt) + if server is Ok {
        seq![Request::CommitTransaction]
    } else {
        Seq::empty()
    });
}

/// A rollback ends the transaction if and only if the server has rolled back
/// and the session agrees. The session is told only after the server has
/// rolled back; whatever fails, the transaction stays open.
pub proof fn rollback_run<B: Backend>(
    answers: Answers<B>,
    session: SessionInfo,
    stmt: &Statement<B>,
)
    ensures
        ({
            let run = full_run(
                answers,
                session,
                crate::connection::statement_start(stmt, Purpose::Rollback),
            );
            let server = counted_rows(statement_result(answers, stmt.timeout_ms));
            &&& run.outcome == Some(
                match server {
                    Ok(_) => match answers.rolled_back {
                        Ok(()) => Ok(Value::<B>::Unit),
                        Err(message) => Err(QueryErrorView::TransactionError(message@)),
                    },
                    Err(error) => Err(error),
                },
            )
            &&& run.session == if run.succeeds() {
                session_after_statement(answers, session).with_transaction(false)
            } else {
                session_after_statement(answers, session)
            }
            &&& run.requests() == statement_requests(answers, stmt) + if server is Ok {
                seq![Request::RollbackTransaction]
            } else {
                Seq::empty()
            }
        }),
{
    reveal_with_fuel(crate::run::run, 8);
    let run = full_run(
        answers,
        session,
        crate::connection::statement_start(stmt, Purpose::Rollback),
    );
    let server = counted_rows(statement_result(answers, stmt.timeout_ms));
    assert(run.requests() =~= statement_requests(answers, stmt) + if server is Ok {
        seq![Request::RollbackTransaction]
    } else {
        Seq::empty()
    });
}

/// Opening a schema sets the current schema if and only if the server has
/// opened it.
pub proof fn set_schema_run<B: Backend>(
    answers: Answers<B>,
    session: SessionInfo,
    stmt: &Statement<B>,
    schema: String,
)
    ensures
        ({
            let run = full_run(
                answers,
                session,
                crate::connection::statement_start(stmt, Purpose::OpenSchema(schema)),
            );
            let server = counted_rows(statement_result(answers, stmt.timeout_ms));
            &&& run.outcome == Some(
                match server {
                    Ok(_) => Ok(Value::<B>::Unit),
                    Err(error) => Err(error),
                },
            )
            &&& run.session == if run.succeeds() {
                session_after_statement(answers, session).with_schema(schema)
            } else {
                session_after_statement(answers, session)
            }
            &&& run.requests() == statement_requests(answers, stmt)
        }),
{
    reveal_with_fuel(crate::run::run, 8);
    let run = full_run(
        answers,
        session,
        crate::connection::statement_start(stmt, Purpose::OpenSchema(schema)),
    );
    assert(run.requests() =~= statement_requests(answers, stmt));
}

/// A transaction begins if and only if the server has stopped to commit after
/// each statement and then the session agrees. The session is told only after
/// the server.
pub proof fn begin_transaction_run<B: Backend>(answers: Answers<B>, session: SessionInfo)
    ensures
        ({
            let run = full_run(answers, session, crate::connection::begin_start());
            &&& run.outcome == Some(
                match (answers.autocommit, answers.begun) {
                    (Ok(()), Ok(())) => Ok(Value::<B>::Unit),
                    (Err(message), _) => Err(QueryErrorView::TransactionError(message@)),
                    (_, Err(message)) => Err(QueryErrorView::TransactionError(message@)),
                },
            )
            &&& run.session == if run.succeeds() {
                session.with_transaction(true)
            } else {
                session
            }
            &&& run.requests() == seq![Request::SetAutocommit { enabled: false }]
                + if answers.autocommit is Ok {
                seq![Request::<B>::BeginTransaction]
            } else {
                Seq::empty()
            }
        }),
{
    reveal_with_fuel(crate::run::run, 8);
    let run = full_run(answers, session, crate::connection::begin_start());
    assert(run.requests() =~= seq![Request::SetAutocommit { enabled: false }]
        + if answers.autocommit is Ok {
        seq![Request::<B>::BeginTransaction]
    } else {
        Seq::empty()
    });
}

/// After a transaction has been begun and ended with success, by a commit or
/// a rollback, none is open, and in between one is. The session is then at
/// rest.
pub proof fn transaction_round_trip<B: Backend>(
    begin: Answers<B>,
    end: Answers<B>,
    session: SessionInfo,
    stmt: &Statement<B>,
    purpose: Purpose,
)
    requires
        purpose is Commit || purpose is Rollback,
        full_run(begin, session, crate::connection::begin_start()).succeeds(),
        full_run(
            end,
            full_run(begin, session, crate::connection::begin_start()).session,
            crate::connection::statement_start(stmt, purpose),
        ).succeeds(),
    ensures
        ({
            let begun = full_run(begin, session, crate::connection::begin_start()).session;
            let ended = full_run(
                end,
                begun,
                crate::connection::statement_start(stmt, purpose),
            ).session;
            &&& begun.in_transaction
            &&& begun.state == SessionState::InTransaction
            &&& !ended.in_transaction
            &&& ended.state == SessionState::Ready
        }),
{
    begin_transaction_run(begin, session);
    commit_run(end, session.with_transaction(true), stmt);
    rollback_run(end, session.with_transaction(true), stmt);
}

/// Preparing a statement leaves the session as it was, and gives a statement
/// that is not closed. The server is asked only if the session can take it.
pub proof fn prepare_run<B: Backend>(answers: Answers<B>, session: SessionInfo, sql: String)
    ensures
        ({
            let run = full_run(answers, session, crate::connection::prepare_start(sql));
            &&& run.outcome == Some(
                match (answers.ready, answers.handle) {
                    (Ok(()), Ok(handle)) => Ok(
                        Value::Prepared(
                            PreparedStatement::<B> { handle, bindings: None, closed: false },
                        ),
                    ),
                    (Err(message), _) => Err(QueryErrorView::InvalidState(message@)),
                    (_, Err(message)) => Err(QueryErrorView::ExecutionFailed(message@)),
                },
            )
            &&& run.session == session
            &&& run.requests() == seq![Request::<B>::ValidateReady] + if answers.ready is Ok {
                seq![Request::CreatePrepared { sql }]
            } else {
                Seq::empty()
            }
        }),
{
    reveal_with_fuel(crate::run::run, 8);
    let run = full_run(answers, session, crate::connection::prepare_start(sql));
    assert(run.requests() =~= seq![Request::<B>::ValidateReady] + if answers.ready is Ok {
        seq![Request::CreatePrepared { sql }]
    } else {
        Seq::empty()
    });
}

/// What came of an open prepared statement up to the server's answer: the
/// first failure on its way, or the answer.
pub open spec fn prepared_result<B: Backend>(answers: Answers<B>) -> Result<
    QueryResult<B>,
    QueryErrorView,
> {
    if answers.ready is Err {
        Err(QueryErrorView::InvalidState(answers.ready->Err_0@))
    } else if answers.parameters is Err {
        Err(answers.parameters->Err_0@)
    } else if answers.executed is Err {
        Err(QueryErrorView::ExecutionFailed(answers.executed->Err_0@))
    } else {
        Ok(answers.executed->Ok_0)
    }
}

/// The session after an open prepared statement: untouched if it could not
/// take the request, back at rest if the server answered, and still busy
/// otherwise. Only a run for the result set counts as a query.
pub open spec fn session_after_prepared<B: Backend>(
    answers: Answers<B>,
    session: SessionInfo,
    purpose: PreparedPurpose,
) -> SessionInfo {
    let counted = if purpose is ResultSet {
        session.with_query_counted()
    } else {
        session
    };
    if answers.ready is Err {
        session
    } else if prepared_result(answers) is Ok {
        counted.settled()
    } else {
        counted.executing()
    }
}

/// The requests that an open prepared statement leads to, up to the server's
/// answer. Each is made only if the one before it went well.
pub open spec fn prepared_requests<'a, B: Backend>(
    answers: Answers<B>,
    stmt: &'a PreparedStatement<B>,
) -> Seq<Request<'a, B>> {
    seq![Request::ValidateReady] + if answers.ready is Err {
        Seq::empty()
    } else {
        seq![Request::BuildParameters { prepared: stmt }] + if answers.parameters is Err {
            Seq::empty()
        } else {
            seq![
                Request::ExecutePrepared {
                    handle: &stmt.handle,
                    parameters: answers.parameters->Ok_0,
                },
            ] + if answers.executed is Err {
                Seq::empty()
            } else {
                seq![Request::UpdateActivity]
            }
        }
    }
}

/// Running an open prepared statement for its result set ends, and gives the
/// result set or the first failure on the way. The server runs the statement
/// that it knows by this one's handle, with the parameters laid out for it.
pub proof fn execute_prepared_run<B: Backend>(
    answers: Answers<B>,
    session: SessionInfo,
    stmt: &PreparedStatement<B>,
)
    requires
        !stmt.closed,
    ensures
        ({
            let run = full_run(
                answers,
                session,
                crate::connection::prepared_start(stmt, PreparedPurpose::ResultSet),
            );
            &&& run.outcome == Some(
                match prepared_result(answers) {
                    Ok(result) => match answers.result_set {
                        Ok(result_set) => Ok(Value::<B>::ResultSet(result_set)),
                        Err(error) => Err(error@),
                    },
                    Err(error) => Err(error),
                },
            )
            &&& run.session == session_after_prepared(answers, session, PreparedPurpose::ResultSet)
            &&& run.requests() == prepared_requests(answers, stmt) + match prepared_result(answers) {
                Ok(result) => seq![Request::IntoResultSet { result }],
                Err(_) => Seq::empty(),
            }
        }),
{
    reveal_with_fuel(crate::run::run, 8);
    let run = full_run(
        answers,
        session,
        crate::connection::prepared_start(stmt, PreparedPurpose::ResultSet),
    );
    assert(run.requests() =~= prepared_requests(answers, stmt) + match prepared_result(answers) {
        Ok(result) => seq![Request::IntoResultSet { result }],
        Err(_) => Seq::empty(),
    });
}

/// Running an open prepared statement for its row count ends, and gives the
/// server's count or the first failure on the way. The server runs the
/// statement that it knows by this one's handle. An answer with rows is an
/// error, and the session is back at rest all the same.
pub proof fn execute_prepared_update_run<B: Backend>(
    answers: Answers<B>,
    session: SessionInfo,
    stmt: &PreparedStatement<B>,
)
    requires
        !stmt.closed,
    ensures
        ({
            let run = full_run(
                answers,
                session,
                crate::connection::prepared_start(stmt, PreparedPurpose::RowCount),
            );
            &&& run.outcome == Some(
                match prepared_result(answers) {
                    Ok(QueryResult::RowCount { count }) => Ok(Value::<B>::RowCount(count)),
                    Ok(QueryResult::ResultSet { data }) => Err(
                        QueryErrorView::UnexpectedResultSet,
                    ),
                    Err(error) => Err(error),
                },
            )
            &&& run.session == session_after_prepared(answers, session, PreparedPurpose::RowCount)
            &&& run.requests() == prepared_requests(answers, stmt)
        }),
{
    reveal_with_fuel(crate::run::run, 8);
    let run = full_run(
        answers,
        session,
        crate::connection::prepared_start(stmt, PreparedPurpose::RowCount),
    );
    assert(run.requests() =~= prepared_requests(answers, stmt));
}

/// While the server works on a prepared statement, the session is marked as
/// busy. Only a run for the result set has been counted as a query by then.
pub proof fn session_is_busy_while_executing_prepared<B: Backend>(
    answers: Answers<B>,
    session: SessionInfo,
    stmt: &PreparedStatement<B>,
    purpose: PreparedPurpose,
)
    ensures
        ({
            let run = full_run(answers, session, crate::connection::prepared_start(stmt, purpose));
            forall|i: int|
                0 <= i < run.asked.len() && #[trigger] run.asked[i].request is ExecutePrepared
                    ==> run.asked[i].session == if purpose is ResultSet {
                    session.with_query_counted().executing()
                } else {
                    session.executing()
                }
        }),
{
    reveal_with_fuel(crate::run::run, 8);
}

/// A closed prepared statement is refused, and nobody is asked anything.
pub proof fn closed_statement_is_refused<B: Backend>(
    answers: Answers<B>,
    session: SessionInfo,
    stmt: &PreparedStatement<B>,
    purpose: PreparedPurpose,
)
    requires
        stmt.closed,
    ensures
        full_run(answers, session, crate::connection::prepared_start(stmt, purpose)) == (Run::<B> {
            asked: Seq::empty(),
            session,
            outcome: Some(Err(QueryErrorView::StatementClosed)),
        }),
{
}

/// A statement that has been closed with success is refused from then on, and
/// there is nothing left to do to close it again.
pub proof fn close_is_final<B: Backend>(
    answers: Answers<B>,
    session: SessionInfo,
    stmt: &PreparedStatement<B>,
    purpose: PreparedPurpose,
)
    requires
        !stmt.closed,
    ensures
        ({
            let run = full_run(answers, session, crate::connection::close_start(*stmt));
            &&& run.session == session
            &&& run.requests() == seq![Request::<B>::ClosePrepared]
            &&& match answers.statement_closed {
                Ok(()) => {
                    &&& run.outcome matches Some(Ok(Value::Closed(closed)))
                    &&& closed == (PreparedStatement::<B> { closed: true, ..*stmt })
                    &&& crate::connection::prepared_start(&closed, purpose)@ == NextView::<B>::Done(
                        Err(QueryErrorView::StatementClosed),
                    )
                    &&& crate::connection::close_start(closed) == Next::Done(
                        Ok(Value::Closed(closed)),
                    )
                },
                Err(message) => run.outcome == Some(
                    Err::<Value<B>, QueryErrorView>(QueryErrorView::ExecutionFailed(message@)),
                ),
            }
        }),
{
    reveal_with_fuel(crate::run::run, 8);
    let run = full_run(answers, session, crate::connection::close_start(*stmt));
    assert(run.requests() =~= seq![Request::<B>::ClosePrepared]);
}

/// No reply changes who the session is or whether it is closed, and a session
/// that was consistent stays so.
pub proof fn resume_keeps_the_session<B: Backend>(
    session: SessionInfo,
    operation: Operation<B>,
    reply: Reply<B>,
)
    ensures
        ({
            let after = crate::operation::resumed(session, operation, reply).0;
            &&& session.consistent() ==> after.consistent()
            &&& after.session_id == session.session_id
            &&& after.auth_response == session.auth_response
            &&& after.config == session.config
            &&& after.closed == session.closed
        }),
{
}

/// A statement that a connection makes runs under the connection's query
/// timeout, to the millisecond, as long as that timeout fits in 64 bits of
/// milliseconds.
pub proof fn statement_runs_under_query_timeout<B: Backend>(
    connection: Connection,
    stmt: &Statement<B>,
    sql: Seq<char>,
)
    requires
        connection.makes_statement(*stmt, sql),
        connection.opened_with().query_timeout.whole_millis() <= u64::MAX,
    ensures
        ({
            let limit = connection.opened_with().query_timeout.total_nanos();
            let given = Duration::of_millis(stmt.timeout_ms).total_nanos();
            given <= limit < given + 1_000_000
        }),
{
    let timeout = connection.opened_with().query_timeout;
    assert(timeout.whole_millis() as int % (u64::MAX + 1) == timeout.whole_millis());
    crate::duration::millis_round_trip(timeout);
}

/// The view of a step shows all of it.
pub proof fn step_view_shows_the_step<'a, B: Backend>(
    request: Request<'a, B>,
    operation: Operation<'a, B>,
    reply: Reply<B>,
    value: Value<B>,
    error: QueryError,
)
    ensures
        Next::Ask(request, operation)@ == NextView::Ask(request, operation),
        Next::<B>::Done(Ok(value))@ == NextView::<B>::Done(Ok(value)),
        Next::<B>::Done(Err(error))@ == NextView::<B>::Done(Err(error@)),
        Next::Misplaced(operation, reply)@ == NextView::Misplaced(operation, reply),
{
}

/// A transaction opens when the session agrees to begin it, and closes when
/// the session agrees to end it. No other reply to any operation opens or
/// closes one.
pub proof fn only_begin_and_end_change_the_transaction<B: Backend>(
    session: SessionInfo,
    operation: Operation<B>,
    reply: Reply<B>,
)
    ensures
        crate::operation::resumed(session, operation, reply).0.in_transaction == match (
            operation,
            reply,
        ) {
            (Operation::Beginning, Reply::Done(Ok(()))) => true,
            (Operation::Ending, Reply::Done(Ok(()))) => false,
            _ => session.in_transaction,
        },
{
}

/// The current schema becomes the one that the server has opened, whatever it
/// was before. No other reply to any operation changes it.
pub proof fn only_an_opened_schema_becomes_current<B: Backend>(
    session: SessionInfo,
    operation: Operation<B>,
    reply: Reply<B>,
)
    ensures
        crate::operation::resumed(session, operation, reply).0.current_schema == match (
            operation,
            reply,
        ) {
            (
                Operation::Converting(Purpose::OpenSchema(schema)),
                Reply::ResultSet(Ok(result_set)),
            ) if result_set.row_count is Some => Some(schema),
            _ => session.current_schema,
        },
{
}

/// A query is counted once, when the session says that it can take the
/// statement. Preparing a statement, and running a prepared one for its row
/// count, are not counted. The count wraps around after 64 bits.
pub proof fn only_accepted_queries_are_counted<B: Backend>(
    session: SessionInfo,
    operation: Operation<B>,
    reply: Reply<B>,
)
    ensures
        crate::operation::resumed(session, operation, reply).0.query_count as int == match (
            operation,
            reply,
        ) {
            (Operation::Validating(Task::Statement(_, _)), Reply::Ready(Ok(()))) => (
            session.query_count + 1) % 0x1_0000_0000_0000_0000,
            (
                Operation::Validating(Task::Prepared(_, PreparedPurpose::ResultSet)),
                Reply::Ready(Ok(())),
            ) => (session.query_count + 1) % 0x1_0000_0000_0000_0000,
            _ => session.query_count as int,
        },
{
}

/// The session is busy from the moment when it takes a statement until the
/// server has answered with a result, and then shows whether a transaction is
/// open. Beginning and ending a transaction show in its state. No other reply
/// changes it.
pub proof fn state_follows_the_work<B: Backend>(
    session: SessionInfo,
    operation: Operation<B>,
    reply: Reply<B>,
)
    ensures
        crate::operation::resumed(session, operation, reply).0.state == match (operation, reply) {
            (Operation::Validating(Task::Statement(_, _)), Reply::Ready(Ok(()))) => {
                SessionState::Executing
            },
            (Operation::Validating(Task::Prepared(_, _)), Reply::Ready(Ok(()))) => {
                SessionState::Executing
            },
            (Operation::Querying { .. }, Reply::Query(QueryAnswer::Answered(Ok(_)))) => {
                if session.in_transaction {
                    SessionState::InTransaction
                } else {
                    SessionState::Ready
                }
            },
            (Operation::ExecutingPrepared(_), Reply::Executed(Ok(_))) => {
                if session.in_transaction {
                    SessionState::InTransaction
                } else {
                    SessionState::Ready
                }
            },
            (Operation::Beginning, Reply::Done(Ok(()))) => SessionState::InTransaction,
            (Operation::Ending, Reply::Done(Ok(()))) => SessionState::Ready,
            _ => session.state,
        },
{
}

/// Whatever is asked of another layer follows from what came before: the SQL
/// that is sent is the one that was built, under the statement's own time
/// limit; a prepared statement is run by its own handle with the parameters
/// that were laid out; a result is converted, and rows are fetched, as the
/// server gave them; and the session is told to end a transaction only after
/// the server has.
pub proof fn requests_follow_from_replies<B: Backend>(
    session: SessionInfo,
    operation: Operation<B>,
    reply: Reply<B>,
)
    ensures
        crate::operation::resumed(session, operation, reply).1 matches NextView::Ask(
            request,
            waiting,
        ) ==> match request {
            Request::ValidateReady => false,
            Request::ClosePrepared => false,
            Request::SetAutocommit { enabled } => false,
            Request::BuildSql { stmt } => {
                &&& operation matches Operation::Validating(Task::Statement(given, purpose))
                &&& reply matches Reply::Ready(Ok(_))
                &&& stmt == given
                &&& waiting matches Operation::BuildingSql { timeout_ms: limit, purpose: wanted }
                &&& limit == given.timeout_ms
                &&& wanted == purpose
            },
            Request::ExecuteQuery { sql, timeout } => {
                &&& operation matches Operation::BuildingSql { timeout_ms, purpose }
                &&& reply matches Reply::Sql(Ok(met)) && met == sql
                &&& timeout.secs * 1000 * 1_000_000 + timeout.nanos == timeout_ms * 1_000_000
                &&& timeout.nanos < 1_000_000_000
                &&& waiting matches Operation::Querying { timeout_ms: limit, purpose: wanted }
                &&& limit == timeout_ms
                &&& wanted == purpose
            },
            Request::BuildParameters { prepared } => {
                &&& operation matches Operation::Validating(Task::Prepared(given, purpose))
                &&& reply matches Reply::Ready(Ok(_))
                &&& prepared == given
                &&& waiting == Operation::BuildingParameters(given, purpose)
            },
            Request::ExecutePrepared { handle, parameters } => {
                &&& operation matches Operation::BuildingParameters(given, purpose)
                &&& reply matches Reply::Parameters(Ok(met)) && met == parameters
                &&& *handle == given.handle
                &&& waiting == Operation::<B>::ExecutingPrepared(purpose)
            },
            Request::CreatePrepared { sql } => {
                &&& operation matches Operation::Validating(Task::Prepare { sql: given })
                &&& reply matches Reply::Ready(Ok(_))
                &&& sql == given
                &&& waiting is Preparing
            },
            Request::UpdateActivity => {
                &&& waiting matches Operation::Updating { result, followup }
                &&& {
                    ||| {
                        &&& operation matches Operation::Querying { timeout_ms, purpose }
                        &&& reply matches Reply::Query(QueryAnswer::Answered(Ok(met))) && met == result
                        &&& followup == Followup::Convert(purpose)
                    }
                    ||| {
                        &&& operation matches Operation::ExecutingPrepared(
                            PreparedPurpose::ResultSet,
                        )
                        &&& reply matches Reply::Executed(Ok(met)) && met == result
                        &&& followup == Followup::Convert(Purpose::ResultSet)
                    }
                    ||| {
                        &&& operation matches Operation::ExecutingPrepared(
                            PreparedPurpose::RowCount,
                        )
                        &&& reply matches Reply::Executed(Ok(met)) && met == result
                        &&& followup == Followup::Count
                    }
                }
            },
            Request::IntoResultSet { result } => {
                &&& operation matches Operation::Updating {
                    result: answered,
                    followup: Followup::Convert(purpose),
                }
                &&& reply is Updated
                &&& result == answered
                &&& waiting == Operation::<B>::Converting(purpose)
            },
            Request::FetchAll { result_set } => {
                &&& operation matches Operation::Converting(Purpose::Batches)
                &&& reply matches Reply::ResultSet(Ok(met)) && met == result_set
                &&& waiting is Fetching
            },
            Request::BeginTransaction => {
                &&& operation is DisablingAutocommit
                &&& reply matches Reply::Done(Ok(_))
                &&& waiting is Beginning
            },
            Request::CommitTransaction => {
                &&& operation matches Operation::Converting(Purpose::Commit)
                &&& reply matches Reply::ResultSet(Ok(result_set))
                &&& result_set.row_count is Some
                &&& waiting is Ending
            },
            Request::RollbackTransaction => {
                &&& operation matches Operation::Converting(Purpose::Rollback)
                &&& reply matches Reply::ResultSet(Ok(result_set))
                &&& result_set.row_count is Some
                &&& waiting is Ending
            },
        },
{
    crate::duration::span_in_units(
        Duration { secs: 0, nanos: 0 },
        operation->BuildingSql_timeout_ms,
    );
}

/// Whatever an operation gives to its caller came from another layer, as it
/// came: a result set, its row count or its rows, the server's count, or a
/// statement known by the server's handle. There is success only where the
/// last layer that was asked reported it.
pub proof fn values_follow_from_replies<B: Backend>(
    session: SessionInfo,
    operation: Operation<B>,
    reply: Reply<B>,
)
    ensures
        crate::operation::resumed(session, operation, reply).1 matches NextView::Done(Ok(value))
            ==> match value {
            Value::Unit => {
                ||| operation is Beginning && reply matches Reply::Done(Ok(_))
                ||| operation is Ending && reply matches Reply::Done(Ok(_))
                ||| {
                    &&& operation matches Operation::Converting(Purpose::OpenSchema(_))
                    &&& reply matches Reply::ResultSet(Ok(result_set))
                    &&& result_set.row_count is Some
                }
            },
            Value::RowCount(count) => {
                ||| {
                    &&& operation matches Operation::Converting(Purpose::RowCount)
                    &&& reply matches Reply::ResultSet(Ok(result_set))
                    &&& result_set.row_count == Some(count)
                }
                ||| {
                    &&& operation matches Operation::Updating {
                        result: QueryResult::RowCount { count: answered },
                        followup: Followup::Count,
                    }
                    &&& reply is Updated
                    &&& answered == count
                }
            },
            Value::ResultSet(result_set) => {
                &&& operation matches Operation::Converting(Purpose::ResultSet)
                &&& reply matches Reply::ResultSet(Ok(met)) && met == result_set
            },
            Value::Batches(batches) => {
                &&& operation is Fetching
                &&& reply matches Reply::Batches(Ok(met)) && met == batches
            },
            Value::Prepared(stmt) => {
                &&& operation is Preparing
                &&& reply matches Reply::Handle(Ok(met)) && met == stmt.handle
                &&& stmt.bindings is None
                &&& !stmt.closed
            },
            Value::Closed(stmt) => {
                &&& operation matches Operation::ClosingPrepared { stmt: given }
                &&& reply matches Reply::Done(Ok(_))
                &&& stmt.handle == given.handle
                &&& stmt.bindings == given.bindings
                &&& stmt.closed
            },
        },
{
}

/// An operation fails only where a layer failed, where no answer came in time,
/// or where a row count was wanted and there is none, and its error says which
/// and repeats the layer's own words.
pub proof fn errors_follow_from_replies<B: Backend>(
    session: SessionInfo,
    operation: Operation<B>,
    reply: Reply<B>,
)
    ensures
        crate::operation::resumed(session, operation, reply).1 matches NextView::Done(Err(error))
            ==> match (operation, reply) {
            (Operation::Validating(_), Reply::Ready(Err(message))) => {
                error == QueryErrorView::InvalidState(message@)
            },
            (Operation::BuildingSql { .. }, Reply::Sql(Err(met))) => error == met@,
            (Operation::Querying { timeout_ms, .. }, Reply::Query(QueryAnswer::TimedOut)) => {
                error == (QueryErrorView::Timeout { timeout_ms })
            },
            (Operation::Querying { .. }, Reply::Query(QueryAnswer::Answered(Err(message)))) => {
                error == QueryErrorView::ExecutionFailed(message@)
            },
            (Operation::BuildingParameters(_, _), Reply::Parameters(Err(met))) => error == met@,
            (Operation::ExecutingPrepared(_), Reply::Executed(Err(message))) => {
                error == QueryErrorView::ExecutionFailed(message@)
            },
            (
                Operation::Updating {
                    result: QueryResult::ResultSet { .. },
                    followup: Followup::Count,
                },
                Reply::Updated,
            ) => error == QueryErrorView::UnexpectedResultSet,
            (Operation::Converting(_), Reply::ResultSet(Err(met))) => error == met@,
            (Operation::Converting(purpose), Reply::ResultSet(Ok(result_set))) => {
                &&& result_set.row_count is None
                &&& !(purpose is ResultSet)
                &&& !(purpose is Batches)
                &&& error == QueryErrorView::NoResultSet("Expected row count, got result set"@)
            },
            (Operation::Fetching, Reply::Batches(Err(met))) => error == met@,
            (Operation::Preparing, Reply::Handle(Err(message))) => {
                error == QueryErrorView::ExecutionFailed(message@)
            },
            (Operation::ClosingPrepared { .. }, Reply::Done(Err(message))) => {
                error == QueryErrorView::ExecutionFailed(message@)
            },
            (Operation::DisablingAutocommit, Reply::Done(Err(message))) => {
                error == QueryErrorView::TransactionError(message@)
            },
            (Operation::Beginning, Reply::Done(Err(message))) => {
                error == QueryErrorView::TransactionError(message@)
            },
            (Operation::Ending, Reply::Done(Err(message))) => {
                error == QueryErrorView::TransactionError(message@)
            },
            _ => false,
        },
{
}

/// A reply is handed back if and only if it is of another kind than the
/// operation waits for, and then nothing has happened.
pub proof fn only_replies_of_another_kind_are_misplaced<B: Backend>(
    session: SessionInfo,
    operation: Operation<B>,
    reply: Reply<B>,
)
    ensures
        ({
            let (after, next) = crate::operation::resumed(session, operation, reply);
            let answered = match operation {
                Operation::Validating(_) => reply is Ready,
                Operation::BuildingSql { .. } => reply is Sql,
                Operation::Querying { .. } => reply is Query,
                Operation::BuildingParameters(_, _) => reply is Parameters,
                Operation::ExecutingPrepared(_) => reply is Executed,
                Operation::Updating { .. } => reply is Updated,
                Operation::Converting(_) => reply is ResultSet,
                Operation::Fetching => reply is Batches,
                Operation::Preparing => reply is Handle,
                Operation::ClosingPrepared { .. } => reply is Done,
                Operation::DisablingAutocommit => reply is Done,
                Operation::Beginning => reply is Done,
                Operation::Ending => reply is Done,
            };
            &&& answered == !(next is Misplaced)
            &&& !answered ==> after == session && next == NextView::Misplaced(operation, reply)
        }),
{
}

/// A statement run for its result set, its rows, its row count or a schema
/// leaves the transaction as it was, whatever the other layers answer.
pub proof fn statements_keep_the_transaction<B: Backend>(
    answers: Answers<B>,
    session: SessionInfo,
    stmt: &Statement<B>,
    purpose: Purpose,
)
    requires
        !(purpose is Commit),
        !(purpose is Rollback),
    ensures
        full_run(
            answers,
            session,
            crate::connection::statement_start(stmt, purpose),
        ).session.in_transaction == session.in_transaction,
{
    match purpose {
        Purpose::ResultSet => execute_statement_run(answers, session, stmt),
        Purpose::Batches => query_run(answers, session, stmt),
        Purpose::RowCount => execute_statement_update_run(answers, session, stmt),
        Purpose::Commit => {},
        Purpose::Rollback => {},
        Purpose::OpenSchema(schema) => set_schema_run(answers, session, stmt, schema),
    }
}

/// Preparing, running and closing a prepared statement leaves the transaction
/// and the current schema as they were, whatever the other layers answer.
pub proof fn prepared_statements_keep_the_transaction<B: Backend>(
    answers: Answers<B>,
    session: SessionInfo,
    sql: String,
    stmt: &PreparedStatement<B>,
    purpose: PreparedPurpose,
)
    ensures
        ({
            let prepared = full_run(
                answers,
                session,
                crate::connection::prepare_start::<B>(sql),
            ).session;
            let executed = full_run(
                answers,
                session,
                crate::connection::prepared_start(stmt, purpose),
            ).session;
            let closed = full_run(
                answers,
                session,
                crate::connection::close_start(*stmt),
            ).session;
            &&& prepared.in_transaction == session.in_transaction
            &&& prepared.current_schema == session.current_schema
            &&& executed.in_transaction == session.in_transaction
            &&& executed.current_schema == session.current_schema
            &&& closed.in_transaction == session.in_transaction
            &&& closed.current_schema == session.current_schema
        }),
{
    prepare_run(answers, session, sql);
    if stmt.closed {
        closed_statement_is_refused(answers, session, stmt, purpose);
    } else {
        execute_prepared_run(answers, session, stmt);
        execute_prepared_update_run(answers, session, stmt);
        close_is_final(answers, session, stmt, purpose);
    }
}

/// After a begin there is a transaction if and only if the begin succeeded or
/// there was one before. After a commit or a rollback there is none if and
/// only if it succeeded or there was none before.
pub proof fn transactions_open_and_close<B: Backend>(
    answers: Answers<B>,
    session: SessionInfo,
    stmt: &Statement<B>,
    purpose: Purpose,
)
    requires
        purpose is Commit || purpose is Rollback,
    ensures
        ({
            let begin = full_run(answers, session, crate::connection::begin_start::<B>());
            let end = full_run(
                answers,
                session,
                crate::connection::statement_start(stmt, purpose),
            );
            &&& begin.succeeds() == (answers.autocommit is Ok && answers.begun is Ok)
            &&& begin.session.in_transaction == (begin.succeeds() || session.in_transaction)
            &&& end.session.in_transaction == (!end.succeeds() && session.in_transaction)
        }),
{
    begin_transaction_run(answers, session);
    commit_run(answers, session, stmt);
    rollback_run(answers, session, stmt);
}

/// A transaction that has been begun is still open after a statement in it, so
/// that a commit or a rollback finds it.
pub proof fn transaction_outlives_statements<B: Backend>(
    begin: Answers<B>,
    inside: Answers<B>,
    session: SessionInfo,
    stmt: &Statement<B>,
    purpose: Purpose,
)
    requires
        !(purpose is Commit),
        !(purpose is Rollback),
        full_run(begin, session, crate::connection::begin_start::<B>()).succeeds(),
    ensures
        full_run(
            inside,
            full_run(begin, session, crate::connection::begin_start::<B>()).session,
            crate::connection::statement_start(stmt, purpose),
        ).session.in_transaction,
{
    let begun = full_run(begin, session, crate::connection::begin_start::<B>()).session;
    begin_transaction_run(begin, session);
    statements_keep_the_transaction(inside, begun, stmt, purpose);
}

/// After a schema has been opened it is the current one, whatever was current
/// before. Where it could not be opened, the current schema stays.
pub proof fn opened_schema_is_current<B: Backend>(
    answers: Answers<B>,
    session: SessionInfo,
    stmt: &Statement<B>,
    schema: String,
)
    ensures
        ({
            let run = full_run(
                answers,
                session,
                crate::connection::statement_start(stmt, Purpose::OpenSchema(schema)),
            );
            &&& run.succeeds() ==> run.session.current_schema == Some(schema)
            &&& !run.succeeds() ==> run.session.current_schema == session.current_schema
        }),
{
    set_schema_run(answers, session, stmt, schema);
}

/// Of two schemas opened one after the other, the second is the current one.
pub proof fn last_opened_schema_is_current<B: Backend>(
    first: Answers<B>,
    second: Answers<B>,
    session: SessionInfo,
    first_stmt: &Statement<B>,
    second_stmt: &Statement<B>,
    first_schema: String,
    second_schema: String,
)
    ensures
        ({
            let between = full_run(
                first,
                session,
                crate::connection::statement_start(first_stmt, Purpose::OpenSchema(first_schema)),
            );
            let after = full_run(
                second,
                between.session,
                crate::connection::statement_start(second_stmt, Purpose::OpenSchema(second_schema)),
            );
            &&& after.succeeds() ==> after.session.current_schema == Some(second_schema)
            &&& between.succeeds() && !after.succeeds() ==> after.session.current_schema == Some(
                first_schema,
            )
        }),
{
    let between = full_run(
        first,
        session,
        crate::connection::statement_start(first_stmt, Purpose::OpenSchema(first_schema)),
    );
    opened_schema_is_current(first, session, first_stmt, first_schema);
    opened_schema_is_current(second, between.session, second_stmt, second_schema);
}

/// No statement but the opening of a schema changes the current schema,
/// whatever the other layers answer.
pub proof fn other_statements_keep_the_schema<B: Backend>(
    answers: Answers<B>,
    session: SessionInfo,
    stmt: &Statement<B>,
    purpose: Purpose,
)
    requires
        !(purpose is OpenSchema),
    ensures
        full_run(
            answers,
            session,
            crate::connection::statement_start(stmt, purpose),
        ).session.current_schema == session.current_schema,
{
    match purpose {
        Purpose::ResultSet => execute_statement_run(answers, session, stmt),
        Purpose::Batches => query_run(answers, session, stmt),
        Purpose::RowCount => execute_statement_update_run(answers, session, stmt),
        Purpose::Commit => commit_run(answers, session, stmt),
        Purpose::Rollback => rollback_run(answers, session, stmt),
        Purpose::OpenSchema(schema) => {},
    }
}

/// Beginning a transaction leaves the current schema as it was.
pub proof fn begin_keeps_the_schema<B: Backend>(answers: Answers<B>, session: SessionInfo)
    ensures
        full_run(
            answers,
            session,
            crate::connection::begin_start::<B>(),
        ).session.current_schema == session.current_schema,
{
    begin_transaction_run(answers, session);
}

/// A statement succeeds for its result set if and only if every layer that it
/// goes through does its part, and then gives the result set that the answer
/// was turned into.
pub proof fn statement_succeeds_with_its_layers<B: Backend>(
    answers: Answers<B>,
    session: SessionInfo,
    stmt: &Statement<B>,
)
    ensures
        ({
            let run = full_run(
                answers,
                session,
                crate::connection::statement_start(stmt, Purpose::ResultSet),
            );
            &&& run.outcome is Some
            &&& run.succeeds() == (answers.ready is Ok && answers.sql is Ok
                && answers.query is Answered && answers.query->Answered_0 is Ok
                && answers.result_set is Ok)
            &&& run.succeeds() ==> run.outcome == Some(
                Ok::<Value<B>, QueryErrorView>(Value::ResultSet(answers.result_set->Ok_0)),
            )
        }),
{
    execute_statement_run(answers, session, stmt);
}

/// A prepared statement that is open succeeds for its result set if and only
/// if every layer that it goes through does its part, and for its row count if
/// and only if they do and the server answers with a count.
pub proof fn prepared_statement_succeeds_with_its_layers<B: Backend>(
    answers: Answers<B>,
    session: SessionInfo,
    stmt: &PreparedStatement<B>,
)
    ensures
        ({
            let rows = full_run(
                answers,
                session,
                crate::connection::prepared_start(stmt, PreparedPurpose::ResultSet),
            );
            let count = full_run(
                answers,
                session,
                crate::connection::prepared_start(stmt, PreparedPurpose::RowCount),
            );
            let executed = !stmt.closed && answers.ready is Ok && answers.parameters is Ok
                && answers.executed is Ok;
            &&& rows.succeeds() == (executed && answers.result_set is Ok)
            &&& rows.succeeds() ==> rows.outcome == Some(
                Ok::<Value<B>, QueryErrorView>(Value::ResultSet(answers.result_set->Ok_0)),
            )
            &&& count.succeeds() == (executed && answers.executed->Ok_0 is RowCount)
            &&& count.succeeds() ==> count.outcome == Some(
                Ok::<Value<B>, QueryErrorView>(Value::RowCount(answers.executed->Ok_0->count)),
            )
        }),
{
    if stmt.closed {
        closed_statement_is_refused(answers, session, stmt, PreparedPurpose::ResultSet);
        closed_statement_is_refused(answers, session, stmt, PreparedPurpose::RowCount);
    } else {
        execute_prepared_run(answers, session, stmt);
        execute_prepared_update_run(answers, session, stmt);
    }
}

/// A run for the row count succeeds if and only if the run for the result set
/// does and that has a row count, which it then gives. A run for the rows
/// succeeds if and only if the run for the result set does and its rows can be
/// fetched, which it then gives.
pub proof fn counts_and_rows_come_from_the_result_set<B: Backend>(
    answers: Answers<B>,
    session: SessionInfo,
    stmt: &Statement<B>,
)
    ensures
        ({
            let rows = full_run(
                answers,
                session,
                crate::connection::statement_start(stmt, Purpose::ResultSet),
            );
            let count = full_run(
                answers,
                session,
                crate::connection::statement_start(stmt, Purpose::RowCount),
            );
            let fetched = full_run(
                answers,
                session,
                crate::connection::statement_start(stmt, Purpose::Batches),
            );
            &&& count.succeeds() == (rows.succeeds() && answers.result_set->Ok_0.row_count is Some)
            &&& count.succeeds() ==> count.outcome == Some(
                Ok::<Value<B>, QueryErrorView>(
                    Value::RowCount(answers.result_set->Ok_0.row_count->0),
                ),
            )
            &&& fetched.succeeds() == (rows.succeeds() && answers.batches is Ok)
            &&& fetched.succeeds() ==> fetched.outcome == Some(
                Ok::<Value<B>, QueryErrorView>(Value::Batches(answers.batches->Ok_0)),
            )
            &&& !rows.succeeds() ==> count.outcome == rows.outcome && fetched.outcome
                == rows.outcome
        }),
{
    execute_statement_run(answers, session, stmt);
    execute_statement_update_run(answers, session, stmt);
    query_run(answers, session, stmt);
}

} // verus!
