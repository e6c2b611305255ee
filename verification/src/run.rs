//! Whole runs of an operation, from its start to its outcome.

use vstd::prelude::*;
use crate::error::{QueryError, QueryErrorView};
use crate::operation::{NextView, QueryAnswer, Reply, Request, Value};
use crate::session::SessionInfo;
use crate::statement::{Backend, QueryResult, ResultSet};

verus! {

/// What the other layers answer to each request that an operation may make.
/// No operation makes the same request twice.
pub struct Answers<B: Backend> {
    pub ready: Result<(), String>,
    pub sql: Result<String, QueryError>,
    pub query: QueryAnswer<B>,
    pub parameters: Result<B::Parameters, QueryError>,
    pub executed: Result<QueryResult<B>, String>,
    pub handle: Result<B::Handle, String>,
    pub statement_closed: Result<(), String>,
    pub result_set: Result<ResultSet<B>, QueryError>,
    pub batches: Result<Vec<B::Batch>, QueryError>,
    pub autocommit: Result<(), String>,
    pub begun: Result<(), String>,
    pub committed: Result<(), String>,
    pub rolled_back: Result<(), String>,
}

/// A request that was made, and the session as it was then.
pub struct Asked<'a, B: Backend> {
    pub request: Request<'a, B>,
    pub session: SessionInfo,
}

/// What happened: the requests in their order, what became of the session, and
/// the outcome, if there is one.
pub struct Run<'a, B: Backend> {
    pub asked: Seq<Asked<'a, B>>,
    pub session: SessionInfo,
    pub outcome: Option<Result<Value<B>, QueryErrorView>>,
}

/// The reply to a request.
pub open spec fn answer<'a, B: Backend>(answers: Answers<B>, request: Request<'a, B>) -> Reply<B> {
    match request {
        Request::ValidateReady => Reply::Ready(answers.ready),
        Request::BuildSql { stmt } => Reply::Sql(answers.sql),
        Request::ExecuteQuery { sql, timeout } => Reply::Query(answers.query),
        Request::BuildParameters { prepared } => Reply::Parameters(answers.parameters),
        Request::ExecutePrepared { handle, parameters } => Reply::Executed(answers.executed),
        Request::CreatePrepared { sql } => Reply::Handle(answers.handle),
        Request::ClosePrepared => Reply::Done(answers.statement_closed),
        Request::UpdateActivity => Reply::Updated,
        Request::IntoResultSet { result } => Reply::ResultSet(answers.result_set),
        Request::FetchAll { result_set } => Reply::Batches(answers.batches),
        Request::SetAutocommit { enabled } => Reply::Done(answers.autocommit),
        Request::BeginTransaction => Reply::Done(answers.begun),
        Request::CommitTransaction => Reply::Done(answers.committed),
        Request::RollbackTransaction => Reply::Done(answers.rolled_back),
    }
}

/// Runs an operation from where it is, with at most `limit` requests.
pub open spec fn run<'a, B: Backend>(
    answers: Answers<B>,
    session: SessionInfo,
    next: NextView<'a, B>,
    limit: nat,
) -> Run<'a, B>
    decreases limit,
{
    match next {
        NextView::Done(outcome) => Run { asked: Seq::empty(), session, outcome: Some(outcome) },
        NextView::Ask(request, operation) if limit > 0 => {
            let (after, following) = crate::operation::resumed(
                session,
                operation,
                answer(answers, request),
            );
            let rest = run(answers, after, following, (limit - 1) as nat);
            Run { asked: seq![Asked { request, session }] + rest.asked, ..rest }
        },
        _ => Run { asked: Seq::empty(), session, outcome: None },
    }
}

impl<'a, B: Backend> Run<'a, B> {
    /// The requests that were made, in their order.
    pub open spec fn requests(self) -> Seq<Request<'a, B>> {
        self.asked.map_values(|asked: Asked<'a, B>| asked.request)
    }

    /// Whether the run came to a good end.
    pub open spec fn succeeds(self) -> bool {
        self.outcome matches Some(Ok(_))
    }
}

} // verus!
