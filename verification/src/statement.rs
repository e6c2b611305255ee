//! Statements and their results.

use vstd::prelude::*;

verus! {

/// The values of other layers that an operation passes on without looking
/// inside.
pub trait Backend {
    /// The values bound to the parameters of a statement.
    type Bindings;

    /// How the server knows a prepared statement.
    type Handle;

    /// The parameter values of a prepared statement, laid out for the server.
    type Parameters;

    /// The data of a result set as the server sent it.
    type Payload;

    /// The rows of a result set, ready to be read.
    type Rows;

    /// A batch of rows in the form that callers get them.
    type Batch;
}

/// An SQL statement, the values bound to its parameters if any are, and how
/// long it may run.
pub struct Statement<B: Backend> {
    pub sql: String,
    pub bindings: Option<B::Bindings>,
    pub timeout_ms: u64,
}

/// A statement that the server keeps ready, and the values bound to its
/// parameters if any are.
pub struct PreparedStatement<B: Backend> {
    pub handle: B::Handle,
    pub bindings: Option<B::Bindings>,
    pub closed: bool,
}

/// What the server answered to a statement.
pub enum QueryResult<B: Backend> {
    /// The number of rows that the statement touched.
    RowCount { count: i64 },
    /// Rows.
    ResultSet { data: B::Payload },
}

/// A result in the form that callers get: a row count where the statement was
/// no query, and the rows.
pub struct ResultSet<B: Backend> {
    pub row_count: Option<i64>,
    pub rows: B::Rows,
}

impl<B: Backend> PreparedStatement<B> {
    /// A statement that the server has just prepared: nothing is bound to it.
    pub fn new(handle: B::Handle) -> (stmt: PreparedStatement<B>)
        ensures
            stmt == (PreparedStatement::<B> { handle, bindings: None, closed: false }),
    {
        PreparedStatement { handle, bindings: None, closed: false }
    }

    /// Whether the statement has been closed.
    pub fn is_closed(&self) -> (closed: bool)
        ensures
            closed == self.closed,
    {
        self.closed
    }

    /// Notes that the server has let go of the statement.
    pub fn mark_closed(&mut self)
        ensures
            *final(self) == (PreparedStatement::<B> { closed: true, ..*old(self) }),
    {
        self.closed = true;
    }
}

/// The row count that an SQL executor reports: the server's count in 64
/// unsigned bits, and none of the rows of a result set.
pub open spec fn executor_count<B: Backend>(result: QueryResult<B>) -> int {
    match result {
        QueryResult::RowCount { count } => if count < 0 {
            count + u64::MAX + 1
        } else {
            count as int
        },
        QueryResult::ResultSet { data } => 0,
    }
}

/// What an SQL executor reports of the server's answer.
pub fn executor_outcome<B: Backend>(answer: Result<QueryResult<B>, String>) -> (outcome: Result<
    u64,
    String,
>)
    ensures
        match answer {
            Ok(result) => outcome matches Ok(count) && count == executor_count(result),
            Err(message) => outcome == Err::<u64, String>(message),
        },
        answer matches Ok(QueryResult::RowCount { count }) ==> (outcome matches Ok(reported)
            && reported == (if count < 0 {
            count + 0x1_0000_0000_0000_0000
        } else {
            count as int
        })),
        answer matches Ok(QueryResult::ResultSet { data }) ==> outcome == Ok::<u64, String>(0),
{
    match answer {
        Ok(QueryResult::RowCount { count }) => {
            assert(count < 0 ==> count as u64 == count + 0x1_0000_0000_0000_0000) by (bit_vector);
            assert(count >= 0 ==> count as u64 == count) by (bit_vector);
            #[verifier::truncate]
            let unsigned: u64 = count as u64;
            Ok(unsigned)
        },
        Ok(QueryResult::ResultSet { data }) => Ok(0),
        Err(message) => Err(message),
    }
}

/// An executor reports the server's count as it is, a negative one as the
/// number with the same 64 bits, and zero for rows.
pub proof fn executor_reports_the_count<B: Backend>(count: i64, data: B::Payload)
    ensures
        count >= 0 ==> executor_count::<B>(QueryResult::RowCount { count }) == count,
        count < 0 ==> executor_count::<B>(QueryResult::RowCount { count }) == count
            + 0x1_0000_0000_0000_0000,
        executor_count::<B>(QueryResult::ResultSet { data }) == 0,
{
}

} // verus!
