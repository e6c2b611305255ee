use exarrow_rs::connection::Connection;
use exarrow_rs::duration::Duration;
use exarrow_rs::error::{ConnectionError, QueryError};
use exarrow_rs::operation::{Next, Operation, QueryAnswer, Reply, Request, Value};
use exarrow_rs::params::ConnectionParams;
use exarrow_rs::session::{
    AuthResponseData, ServerInfo, SessionConfig, SessionInfo, SessionState,
};
use exarrow_rs::statement::{
    executor_outcome, Backend, PreparedStatement, QueryResult, ResultSet, Statement,
};
use exarrow_rs::text::{double_quotes, join};

struct Server;

impl Backend for Server {
    type Bindings = i32;
    type Handle = u32;
    type Parameters = &'static str;
    type Payload = &'static str;
    type Rows = &'static str;
    type Batch = u64;
}

/// What the layers around the connection answer, and what they were asked.
struct Script {
    ready: Result<(), String>,
    sql: Option<Result<String, QueryError>>,
    query: Option<QueryAnswer<Server>>,
    parameters: Option<Result<&'static str, QueryError>>,
    executed: Option<Result<QueryResult<Server>, String>>,
    handle: Result<u32, String>,
    result_set: Option<Result<ResultSet<Server>, QueryError>>,
    batches: Option<Result<Vec<u64>, QueryError>>,
    done: Result<(), String>,
    failing: &'static str,
    asked: Vec<String>,
    states: Vec<SessionState>,
    counts: Vec<u64>,
}

fn script() -> Script {
    Script {
        ready: Ok(()),
        sql: Some(Ok("SELECT 1".to_string())),
        query: Some(QueryAnswer::Answered(Ok(QueryResult::RowCount { count: 5 }))),
        parameters: Some(Ok("[[1]]")),
        executed: Some(Ok(QueryResult::RowCount { count: 7 })),
        handle: Ok(42),
        result_set: Some(Ok(ResultSet { row_count: Some(5), rows: "rows" })),
        batches: Some(Ok(vec![1, 2])),
        done: Ok(()),
        failing: "",
        asked: Vec::new(),
        states: Vec::new(),
        counts: Vec::new(),
    }
}

impl Script {
    fn done(&self, name: &str) -> Reply<Server> {
        if self.failing == name {
            Reply::Done(Err("refused".to_string()))
        } else {
            Reply::Done(self.done.clone())
        }
    }

    fn reply(&mut self, connection: &Connection, request: Request<Server>) -> Reply<Server> {
        self.states.push(connection.session_info().state);
        self.counts.push(connection.session_info().query_count);
        let (name, reply) = match request {
            Request::ValidateReady => ("ready?".to_string(), Reply::Ready(self.ready.clone())),
            Request::BuildSql { stmt } => (
                format!("sql {} {:?}", stmt.sql, stmt.bindings),
                Reply::Sql(self.sql.take().unwrap()),
            ),
            Request::ExecuteQuery { sql, timeout } => (
                format!("query {} {}", sql, timeout.as_millis()),
                Reply::Query(self.query.take().unwrap()),
            ),
            Request::BuildParameters { prepared } => (
                format!("parameters {} {:?}", prepared.handle, prepared.bindings),
                Reply::Parameters(self.parameters.take().unwrap()),
            ),
            Request::ExecutePrepared { handle, parameters } => (
                format!("prepared {} {}", handle, parameters),
                Reply::Executed(self.executed.take().unwrap()),
            ),
            Request::CreatePrepared { sql } => {
                (format!("prepare {}", sql), Reply::Handle(self.handle.clone()))
            }
            Request::ClosePrepared => ("close".to_string(), self.done("close")),
            Request::UpdateActivity => ("activity".to_string(), Reply::Updated),
            Request::IntoResultSet { result } => (
                match result {
                    QueryResult::RowCount { count } => format!("convert {}", count),
                    QueryResult::ResultSet { data } => format!("convert {}", data),
                },
                Reply::ResultSet(self.result_set.take().unwrap()),
            ),
            Request::FetchAll { result_set } => (
                format!("fetch {}", result_set.rows),
                Reply::Batches(self.batches.take().unwrap()),
            ),
            Request::SetAutocommit { enabled } => {
                (format!("autocommit {}", enabled), self.done("autocommit"))
            }
            Request::BeginTransaction => ("begin".to_string(), self.done("begin")),
            Request::CommitTransaction => ("commit".to_string(), self.done("commit")),
            Request::RollbackTransaction => ("rollback".to_string(), self.done("rollback")),
        };
        self.asked.push(name);
        reply
    }

    fn run(
        &mut self,
        connection: &mut Connection,
        start: Next<Server>,
    ) -> Result<Value<Server>, QueryError> {
        let mut next = start;
        loop {
            next = match next {
                Next::Ask(request, operation) => {
                    let reply = self.reply(connection, request);
                    connection.resume(operation, reply)
                }
                Next::Done(outcome) => return outcome,
                Next::Misplaced(_, _) => panic!("a reply was not taken"),
            };
        }
    }
}

fn server() -> ServerInfo {
    ServerInfo {
        session_id: "17".to_string(),
        protocol_version: 3,
        release_version: "8.0".to_string(),
        database_name: "DB1".to_string(),
        product_name: "EXASolution".to_string(),
        max_data_message_size: 4_194_304,
        time_zone: None,
    }
}

fn connection() -> Connection {
    let params = ConnectionParams {
        host: "db.example".to_string(),
        port: 8563,
        username: "sys".to_string(),
        password: "secret".to_string(),
        schema: None,
        use_tls: true,
        validate_server_certificate: true,
        certificate_fingerprint: None,
        connection_timeout: Duration { secs: 30, nanos: 0 },
        query_timeout: Duration { secs: 2, nanos: 500_000_000 },
        idle_timeout: Duration { secs: 600, nanos: 0 },
    };
    Connection::from_params(params)
        .connected(Ok(()))
        .ok()
        .unwrap()
        .authenticated(Ok(server()))
        .ok()
        .unwrap()
}

fn error(outcome: Result<Value<Server>, QueryError>) -> QueryError {
    match outcome {
        Err(error) => error,
        Ok(_) => panic!("an error was expected"),
    }
}

fn unit(outcome: Result<Value<Server>, QueryError>) -> bool {
    matches!(outcome, Ok(Value::Unit))
}

fn open_transaction(connection: &mut Connection) {
    let start = connection.begin_transaction();
    assert!(unit(script().run(connection, start)));
}

fn check_statement(stmt: &Statement<Server>, sql: &str) {
    assert_eq!(stmt.sql, sql);
    assert_eq!(stmt.bindings, None);
    assert_eq!(stmt.timeout_ms, 2500);
}

#[test]
fn test_create_statement_is_sync() {
    let stmt = connection().create_statement::<Server>("SELECT 1".to_string());
    check_statement(&stmt, "SELECT 1");
}

#[test]
fn statement_runs_to_its_result_set() {
    let mut connection = connection();
    let mut script = script();
    let stmt = Statement { sql: "SELECT ?".to_string(), bindings: Some(6), timeout_ms: 40 };
    let start = connection.execute_statement(&stmt);
    let outcome = script.run(&mut connection, start);
    assert!(matches!(
        outcome,
        Ok(Value::ResultSet(ResultSet { row_count: Some(5), rows: "rows" }))
    ));
    assert_eq!(
        script.asked,
        vec!["ready?", "sql SELECT ? Some(6)", "query SELECT 1 40", "activity", "convert 5"]
    );
    assert_eq!(
        script.states,
        vec![
            SessionState::Ready,
            SessionState::Executing,
            SessionState::Executing,
            SessionState::Ready,
            SessionState::Ready,
        ]
    );
    assert_eq!(connection.session_info().query_count, 1);
    assert_eq!(connection.session_info().state, SessionState::Ready);
}

#[test]
fn session_that_is_not_ready_is_left_alone() {
    let mut connection = connection();
    let mut script = script();
    script.ready = Err("closed".to_string());
    let started = connection.execute("SELECT 1".to_string());
    assert_eq!(
        error(script.run(&mut connection, started.next())),
        QueryError::InvalidState("closed".to_string())
    );
    assert_eq!(script.asked, vec!["ready?"]);
    assert_eq!(connection.session_info().query_count, 0);
    assert_eq!(connection.session_info().state, SessionState::Ready);
}

#[test]
fn sql_that_cannot_be_built_is_not_sent() {
    let mut connection = connection();
    let mut script = script();
    script.sql = Some(Err(QueryError::Other("parameter missing".to_string())));
    let started = connection.execute("SELECT ?".to_string());
    assert_eq!(
        error(script.run(&mut connection, started.next())),
        QueryError::Other("parameter missing".to_string())
    );
    assert_eq!(script.asked, vec!["ready?", "sql SELECT ? None"]);
    assert_eq!(connection.session_info().query_count, 1);
    assert_eq!(connection.session_info().state, SessionState::Executing);
}

#[test]
fn timeout_and_failure_leave_the_session_busy() {
    let mut connection = connection();
    let mut late = script();
    late.query = Some(QueryAnswer::TimedOut);
    let started = connection.execute("SELECT 1".to_string());
    assert_eq!(
        error(late.run(&mut connection, started.next())),
        QueryError::Timeout { timeout_ms: 2500 }
    );
    assert_eq!(late.asked, vec!["ready?", "sql SELECT 1 None", "query SELECT 1 2500"]);
    assert_eq!(connection.session_info().state, SessionState::Executing);

    let mut failing = script();
    failing.query = Some(QueryAnswer::Answered(Err("syntax".to_string())));
    let started = connection.execute("SELECT 1".to_string());
    assert_eq!(
        error(failing.run(&mut connection, started.next())),
        QueryError::ExecutionFailed("syntax".to_string())
    );
    assert_eq!(connection.session_info().state, SessionState::Executing);
    assert_eq!(connection.session_info().query_count, 2);
}

#[test]
fn result_that_cannot_be_converted_is_an_error_of_a_resting_session() {
    let mut connection = connection();
    let mut script = script();
    script.result_set = Some(Err(QueryError::Other("bad data".to_string())));
    let started = connection.execute("SELECT 1".to_string());
    assert_eq!(
        error(script.run(&mut connection, started.next())),
        QueryError::Other("bad data".to_string())
    );
    assert_eq!(connection.session_info().state, SessionState::Ready);
}

#[test]
fn update_gives_the_row_count() {
    let mut connection = connection();
    let started = connection.execute_update::<Server>("DELETE FROM T".to_string());
    assert_eq!(started.stmt.sql, "DELETE FROM T");
    let outcome = script().run(&mut connection, started.next());
    assert!(matches!(outcome, Ok(Value::RowCount(5))));

    let mut rows = script();
    rows.result_set = Some(Ok(ResultSet { row_count: None, rows: "rows" }));
    let stmt = connection.create_statement("SELECT 1".to_string());
    let start = connection.execute_statement_update(&stmt);
    assert_eq!(
        error(rows.run(&mut connection, start)),
        QueryError::NoResultSet("Expected row count, got result set".to_string())
    );
}

#[test]
fn query_fetches_all_rows() {
    let mut connection = connection();
    let mut fetching = script();
    let started = connection.query("SELECT 1".to_string());
    let outcome = fetching.run(&mut connection, started.next());
    assert!(matches!(outcome, Ok(Value::Batches(batches)) if batches == vec![1, 2]));
    assert_eq!(fetching.asked.last().map(|s| s.as_str()), Some("fetch rows"));

    let mut failing = script();
    failing.batches = Some(Err(QueryError::Other("gone".to_string())));
    let started = connection.query("SELECT 1".to_string());
    assert_eq!(
        error(failing.run(&mut connection, started.next())),
        QueryError::Other("gone".to_string())
    );
}

#[test]
fn prepared_statement_is_made_by_the_server() {
    let mut connection = connection();
    let mut preparing = script();
    let start = connection.prepare("INSERT INTO T VALUES (?)".to_string());
    match preparing.run(&mut connection, start) {
        Ok(Value::Prepared(stmt)) => {
            assert_eq!(stmt.handle, 42);
            assert!(!stmt.is_closed());
        }
        _ => panic!("a prepared statement was expected"),
    }
    assert_eq!(preparing.asked, vec!["ready?", "prepare INSERT INTO T VALUES (?)"]);
    assert_eq!(connection.session_info().query_count, 0);

    let mut failing = script();
    failing.handle = Err("syntax".to_string());
    let start = connection.prepare("INSERT".to_string());
    assert_eq!(
        error(failing.run(&mut connection, start)),
        QueryError::ExecutionFailed("syntax".to_string())
    );

    let mut busy = script();
    busy.ready = Err("busy".to_string());
    let start = connection.prepare("INSERT".to_string());
    assert_eq!(
        error(busy.run(&mut connection, start)),
        QueryError::InvalidState("busy".to_string())
    );
    assert_eq!(busy.asked, vec!["ready?"]);
}

#[test]
fn prepared_statement_runs_to_its_result_set() {
    let mut connection = connection();
    let mut script = script();
    script.executed = Some(Ok(QueryResult::ResultSet { data: "payload" }));
    let mut stmt = PreparedStatement::<Server>::new(42);
    stmt.bindings = Some(6);
    let start = connection.execute_prepared(&stmt);
    assert!(matches!(script.run(&mut connection, start), Ok(Value::ResultSet(_))));
    assert_eq!(
        script.asked,
        vec!["ready?", "parameters 42 Some(6)", "prepared 42 [[1]]", "activity", "convert payload"]
    );
    assert_eq!(script.states[2], SessionState::Executing);
    assert_eq!(script.counts[2], 1);
    assert_eq!(connection.session_info().query_count, 1);
    assert_eq!(connection.session_info().state, SessionState::Ready);
}

#[test]
fn prepared_update_gives_the_count_and_is_not_counted() {
    let mut connection = connection();
    let stmt = PreparedStatement::<Server>::new(42);
    let mut counting = script();
    let start = connection.execute_prepared_update(&stmt);
    assert!(matches!(counting.run(&mut connection, start), Ok(Value::RowCount(7))));
    assert_eq!(
        counting.asked,
        vec!["ready?", "parameters 42 None", "prepared 42 [[1]]", "activity"]
    );
    assert_eq!(counting.states[2], SessionState::Executing);
    assert_eq!(counting.counts[2], 0);
    assert_eq!(connection.session_info().query_count, 0);

    let mut rows = script();
    rows.executed = Some(Ok(QueryResult::ResultSet { data: "payload" }));
    let start = connection.execute_prepared_update(&stmt);
    assert_eq!(error(rows.run(&mut connection, start)), QueryError::UnexpectedResultSet);
    assert_eq!(connection.session_info().state, SessionState::Ready);
}

#[test]
fn prepared_statement_fails_where_its_parameters_or_the_server_fail() {
    let mut connection = connection();
    let stmt = PreparedStatement::<Server>::new(42);
    let mut unbound = script();
    unbound.parameters = Some(Err(QueryError::Other("unbound".to_string())));
    let start = connection.execute_prepared(&stmt);
    assert_eq!(
        error(unbound.run(&mut connection, start)),
        QueryError::Other("unbound".to_string())
    );
    assert_eq!(connection.session_info().state, SessionState::Executing);

    let mut failing = script();
    failing.executed = Some(Err("lost".to_string()));
    let start = connection.execute_prepared_update(&stmt);
    assert_eq!(
        error(failing.run(&mut connection, start)),
        QueryError::ExecutionFailed("lost".to_string())
    );

    let mut busy = script();
    busy.ready = Err("busy".to_string());
    let start = connection.execute_prepared(&stmt);
    assert_eq!(
        error(busy.run(&mut connection, start)),
        QueryError::InvalidState("busy".to_string())
    );
}

#[test]
fn closed_statement_is_refused_without_a_request() {
    let mut connection = connection();
    let mut closing = script();
    let start = connection.close_prepared(PreparedStatement::<Server>::new(42));
    let stmt = match closing.run(&mut connection, start) {
        Ok(Value::Closed(stmt)) => stmt,
        _ => panic!("a closed statement was expected"),
    };
    assert_eq!(closing.asked, vec!["close"]);
    assert!(stmt.is_closed());

    let mut idle = script();
    let start = connection.execute_prepared(&stmt);
    assert_eq!(error(idle.run(&mut connection, start)), QueryError::StatementClosed);
    let start = connection.execute_prepared_update(&stmt);
    assert_eq!(error(idle.run(&mut connection, start)), QueryError::StatementClosed);
    let start = connection.close_prepared(stmt);
    assert!(matches!(idle.run(&mut connection, start), Ok(Value::Closed(_))));
    assert!(idle.asked.is_empty());
}

#[test]
fn statement_that_the_server_keeps_is_not_closed() {
    let mut connection = connection();
    let mut failing = script();
    failing.failing = "close";
    let start = connection.close_prepared(PreparedStatement::<Server>::new(42));
    assert_eq!(
        error(failing.run(&mut connection, start)),
        QueryError::ExecutionFailed("refused".to_string())
    );
}

#[test]
fn transaction_begins_after_autocommit_is_off() {
    let mut connection = connection();
    let mut beginning = script();
    let start = connection.begin_transaction();
    assert!(unit(beginning.run(&mut connection, start)));
    assert_eq!(beginning.asked, vec!["autocommit false", "begin"]);
    assert!(connection.in_transaction());
    assert_eq!(connection.session_info().state, SessionState::InTransaction);

    let started = connection.execute("SELECT 1".to_string());
    assert!(script().run(&mut connection, started.next()).is_ok());
    assert_eq!(connection.session_info().state, SessionState::InTransaction);
}

#[test]
fn transaction_does_not_begin_if_either_side_refuses() {
    let mut connection = connection();
    let mut server = script();
    server.failing = "autocommit";
    let start = connection.begin_transaction();
    assert_eq!(
        error(server.run(&mut connection, start)),
        QueryError::TransactionError("refused".to_string())
    );
    assert_eq!(server.asked, vec!["autocommit false"]);

    let mut session = script();
    session.failing = "begin";
    let start = connection.begin_transaction();
    assert_eq!(
        error(session.run(&mut connection, start)),
        QueryError::TransactionError("refused".to_string())
    );
    assert!(!connection.in_transaction());
}

#[test]
fn commit_and_rollback_do_nothing_outside_a_transaction() {
    let connection = connection();
    assert!(connection.commit::<Server>().is_none());
    assert!(connection.rollback::<Server>().is_none());
}

#[test]
fn commit_tells_the_session_after_the_server() {
    let mut connection = connection();
    open_transaction(&mut connection);
    let started = connection.commit().unwrap();
    check_statement(&started.stmt, "COMMIT");
    let mut committing = script();
    assert!(unit(committing.run(&mut connection, started.next())));
    assert_eq!(
        committing.asked,
        vec![
            "ready?",
            "sql COMMIT None",
            "query SELECT 1 2500",
            "activity",
            "convert 5",
            "commit",
        ]
    );
    assert!(!connection.in_transaction());
    assert_eq!(connection.session_info().state, SessionState::Ready);
}

#[test]
fn rollback_tells_the_session_after_the_server() {
    let mut connection = connection();
    open_transaction(&mut connection);
    let started = connection.rollback().unwrap();
    assert_eq!(started.stmt.sql, "ROLLBACK");
    let mut rolling = script();
    assert!(unit(rolling.run(&mut connection, started.next())));
    assert_eq!(rolling.asked.last().map(|s| s.as_str()), Some("rollback"));
    assert!(!connection.in_transaction());
}

#[test]
fn transaction_stays_open_where_its_end_fails() {
    let mut connection = connection();
    open_transaction(&mut connection);

    let mut server = script();
    server.query = Some(QueryAnswer::Answered(Err("lost".to_string())));
    let started = connection.commit().unwrap();
    assert_eq!(
        error(server.run(&mut connection, started.next())),
        QueryError::ExecutionFailed("lost".to_string())
    );
    assert!(connection.in_transaction());

    let mut session = script();
    session.failing = "rollback";
    let started = connection.rollback().unwrap();
    assert_eq!(
        error(session.run(&mut connection, started.next())),
        QueryError::TransactionError("refused".to_string())
    );
    assert!(connection.in_transaction());
}

#[test]
fn current_schema_follows_the_server() {
    let mut connection = connection();
    let started = connection.set_schema("SALES".to_string());
    assert_eq!(started.stmt.sql, "OPEN SCHEMA SALES");
    assert!(unit(script().run(&mut connection, started.next())));
    assert_eq!(connection.current_schema().as_deref(), Some("SALES"));

    let mut failing = script();
    failing.query = Some(QueryAnswer::Answered(Err("no such schema".to_string())));
    let started = connection.set_schema("NONE".to_string());
    assert_eq!(
        error(failing.run(&mut connection, started.next())),
        QueryError::ExecutionFailed("no such schema".to_string())
    );
    assert_eq!(connection.current_schema().as_deref(), Some("SALES"));
}

#[test]
fn reply_keeps_who_the_session_is() {
    let auth_response = AuthResponseData::from_server(server());
    let config = SessionConfig {
        idle_timeout: Duration { secs: 600, nanos: 0 },
        query_timeout: Duration { secs: 2, nanos: 0 },
    };
    let mut session = SessionInfo::new("17".to_string(), auth_response, config);
    session.state = SessionState::InTransaction;
    session.closed = true;
    let next = session.resume::<Server>(Operation::Fetching, Reply::Batches(Ok(vec![3])));
    assert!(matches!(next, Next::Done(Ok(Value::Batches(_)))));
    assert_eq!(session.session_id, "17");
    assert_eq!(session.auth_response.database_name, "DB1");
    assert_eq!(session.config, config);
    assert!(session.closed);
}

#[test]
fn misplaced_reply_is_handed_back() {
    let mut connection = connection();
    let next = connection.resume::<Server>(Operation::Fetching, Reply::Updated);
    assert!(matches!(next, Next::Misplaced(Operation::Fetching, Reply::Updated)));
}

#[test]
fn transport_closes_after_the_session() {
    let mut connection = connection();
    let failed = connection.shutdown(Err(ConnectionError::Other("busy".to_string())));
    assert_eq!(failed, Err(ConnectionError::Other("busy".to_string())));
    assert!(!connection.is_closed());

    let closing = connection.shutdown(Ok(())).unwrap();
    assert!(connection.is_closed());
    assert_eq!(
        closing.closed(Err("lost".to_string())),
        Err(ConnectionError::ConnectionFailed {
            host: "db.example".to_string(),
            port: 8563,
            message: "lost".to_string(),
        })
    );
}

#[test]
fn close_uses_up_the_connection() {
    let closing = connection().close(Ok(())).unwrap();
    assert_eq!(closing.closed(Ok(())), Ok(()));
    let failed = connection().close(Err(ConnectionError::Other("busy".to_string())));
    assert_eq!(failed, Err(ConnectionError::Other("busy".to_string())));
}

#[test]
fn sql_executor_reports_counts() {
    assert_eq!(
        executor_outcome::<Server>(Ok(QueryResult::RowCount { count: 12 })),
        Ok(12)
    );
    assert_eq!(
        executor_outcome::<Server>(Ok(QueryResult::RowCount { count: -1 })),
        Ok(18_446_744_073_709_551_615)
    );
    assert_eq!(
        executor_outcome::<Server>(Ok(QueryResult::ResultSet { data: "rows" })),
        Ok(0)
    );
    assert_eq!(
        executor_outcome::<Server>(Err("lost".to_string())),
        Err("lost".to_string())
    );
}

#[test]
fn metadata_queries() {
    let connection = connection();
    assert_eq!(
        connection.get_catalogs::<Server>().stmt.sql,
        "SELECT DISTINCT SCHEMA_NAME AS CATALOG_NAME FROM SYS.EXA_ALL_SCHEMAS ORDER BY CATALOG_NAME"
    );
    assert_eq!(
        connection.get_schemas::<Server>(None).stmt.sql,
        "SELECT SCHEMA_NAME FROM SYS.EXA_ALL_SCHEMAS ORDER BY SCHEMA_NAME"
    );
    assert_eq!(
        connection.get_schemas::<Server>(Some("O'Neil''s")).stmt.sql,
        "SELECT SCHEMA_NAME FROM SYS.EXA_ALL_SCHEMAS WHERE SCHEMA_NAME = 'O''Neil''''s' ORDER BY SCHEMA_NAME"
    );
    assert_eq!(
        connection.get_tables::<Server>(None, None, None).stmt.sql,
        "SELECT ROOT_NAME AS TABLE_SCHEMA, OBJECT_NAME AS TABLE_NAME, OBJECT_TYPE AS TABLE_TYPE FROM SYS.EXA_ALL_OBJECTS WHERE OBJECT_TYPE IN ('TABLE', 'VIEW') ORDER BY ROOT_NAME, OBJECT_NAME"
    );
    assert_eq!(
        connection.get_tables::<Server>(None, Some("S"), Some("T'1")).stmt.sql,
        "SELECT ROOT_NAME AS TABLE_SCHEMA, OBJECT_NAME AS TABLE_NAME, OBJECT_TYPE AS TABLE_TYPE FROM SYS.EXA_ALL_OBJECTS WHERE OBJECT_TYPE IN ('TABLE', 'VIEW') AND ROOT_NAME = 'S' AND OBJECT_NAME = 'T''1' ORDER BY ROOT_NAME, OBJECT_NAME"
    );
    assert_eq!(
        connection.get_tables::<Server>(Some("C'"), None, None).stmt.sql,
        "SELECT ROOT_NAME AS TABLE_SCHEMA, OBJECT_NAME AS TABLE_NAME, OBJECT_TYPE AS TABLE_TYPE FROM SYS.EXA_ALL_OBJECTS WHERE OBJECT_TYPE IN ('TABLE', 'VIEW') AND ROOT_NAME = 'C''' ORDER BY ROOT_NAME, OBJECT_NAME"
    );
    assert_eq!(
        connection.get_tables::<Server>(Some("C"), Some("S"), Some("T")).stmt.sql,
        "SELECT ROOT_NAME AS TABLE_SCHEMA, OBJECT_NAME AS TABLE_NAME, OBJECT_TYPE AS TABLE_TYPE FROM SYS.EXA_ALL_OBJECTS WHERE OBJECT_TYPE IN ('TABLE', 'VIEW') AND ROOT_NAME = 'C' AND ROOT_NAME = 'S' AND OBJECT_NAME = 'T' ORDER BY ROOT_NAME, OBJECT_NAME"
    );
    assert_eq!(
        connection.get_tables::<Server>(Some("A"), None, Some("T")).stmt.sql,
        connection.get_tables::<Server>(None, Some("A"), Some("T")).stmt.sql
    );
    assert_eq!(
        connection.get_columns::<Server>(None, None, None, None).stmt.sql,
        "SELECT COLUMN_SCHEMA, COLUMN_TABLE, COLUMN_NAME, COLUMN_TYPE, COLUMN_NUM_PREC, COLUMN_NUM_SCALE, COLUMN_IS_NULLABLE FROM SYS.EXA_ALL_COLUMNS  ORDER BY COLUMN_SCHEMA, COLUMN_TABLE, ORDINAL_POSITION"
    );
    assert_eq!(
        connection.get_columns::<Server>(Some("C"), Some("S"), Some("T"), Some("X")).stmt.sql,
        "SELECT COLUMN_SCHEMA, COLUMN_TABLE, COLUMN_NAME, COLUMN_TYPE, COLUMN_NUM_PREC, COLUMN_NUM_SCALE, COLUMN_IS_NULLABLE FROM SYS.EXA_ALL_COLUMNS WHERE COLUMN_SCHEMA = 'C' AND COLUMN_SCHEMA = 'S' AND COLUMN_TABLE = 'T' AND COLUMN_NAME = 'X' ORDER BY COLUMN_SCHEMA, COLUMN_TABLE, ORDINAL_POSITION"
    );
    assert_eq!(
        connection.get_columns::<Server>(Some("A"), None, Some("T"), None).stmt.sql,
        connection.get_columns::<Server>(None, Some("A"), Some("T"), None).stmt.sql
    );
}

#[test]
fn query_count_wraps_around() {
    let stmt = connection().create_statement::<Server>("SELECT 1".to_string());
    let auth_response = AuthResponseData::from_server(server());
    let config = SessionConfig {
        idle_timeout: Duration { secs: 600, nanos: 0 },
        query_timeout: Duration { secs: 2, nanos: 0 },
    };
    let mut session = SessionInfo::new("17".to_string(), auth_response, config);
    session.query_count = u64::MAX;
    let next = match connection().execute_statement(&stmt) {
        Next::Ask(Request::ValidateReady, operation) => {
            session.resume(operation, Reply::Ready(Ok(())))
        }
        _ => panic!("the session was to be asked first"),
    };
    assert!(matches!(next, Next::Ask(Request::BuildSql { .. }, _)));
    assert_eq!(session.query_count, 0);
}

#[test]
fn open_connection_knows_its_session() {
    let connection = connection();
    assert_eq!(connection.session_id(), "17");
    assert_eq!(connection.session_info().session_id, "17");
    assert!(!connection.is_closed());
}

#[test]
fn quotes_are_doubled_and_parts_joined() {
    assert_eq!(double_quotes(""), "");
    assert_eq!(double_quotes("'"), "''");
    assert_eq!(double_quotes("\u{e9}'\u{e9}''x"), "\u{e9}''\u{e9}''''x");
    assert_eq!(join(&Vec::new(), ", "), "");
    assert_eq!(join(&vec!["a".to_string()], ", "), "a");
    assert_eq!(join(&vec!["a".to_string(), "b".to_string(), "".to_string()], ", "), "a, b, ");
}

#[test]
fn different_schema_filters_ask_different_queries() {
    let connection = connection();
    assert_ne!(
        connection.get_schemas::<Server>(Some("a'b")).stmt.sql,
        connection.get_schemas::<Server>(Some("a''b")).stmt.sql
    );
}

/// What a literal stands for and what follows it, read from behind its
/// opening quote.
fn read_literal(sql: &str) -> (String, &str) {
    let mut value = String::new();
    let mut rest = sql;
    loop {
        let quote = rest.find('\'').unwrap();
        value.push_str(&rest[..quote]);
        rest = &rest[quote + 1..];
        if !rest.starts_with('\'') {
            return (value, rest);
        }
        value.push('\'');
        rest = &rest[1..];
    }
}

/// The values of the filters in turn, and what follows the last.
fn read_filters<'a>(sql: &'a str, openings: &[&str]) -> (Vec<String>, &'a str) {
    let mut values = Vec::new();
    let mut rest = sql;
    for opening in openings {
        let (value, behind) = read_literal(rest.strip_prefix(opening).unwrap());
        values.push(value);
        rest = behind;
    }
    (values, rest)
}

#[test]
fn table_filters_are_read_back() {
    let (catalog, schema, table) = ("c' AND ROOT_NAME = 'x", "'", "t''");
    let sql =
        connection().get_tables::<Server>(Some(catalog), Some(schema), Some(table)).stmt.sql;
    let head = "SELECT ROOT_NAME AS TABLE_SCHEMA, OBJECT_NAME AS TABLE_NAME, OBJECT_TYPE AS TABLE_TYPE FROM SYS.EXA_ALL_OBJECTS WHERE OBJECT_TYPE IN ('TABLE', 'VIEW')";
    let openings = [" AND ROOT_NAME = '", " AND ROOT_NAME = '", " AND OBJECT_NAME = '"];
    let (values, rest) = read_filters(sql.strip_prefix(head).unwrap(), &openings);
    assert_eq!(values, vec![catalog, schema, table]);
    assert_eq!(rest, " ORDER BY ROOT_NAME, OBJECT_NAME");
}

#[test]
fn column_filters_are_read_back() {
    let (schema, column) = ("s' OR 'a' = 'a", "''x");
    let sql = connection().get_columns::<Server>(None, Some(schema), None, Some(column)).stmt.sql;
    let head = "SELECT COLUMN_SCHEMA, COLUMN_TABLE, COLUMN_NAME, COLUMN_TYPE, COLUMN_NUM_PREC, COLUMN_NUM_SCALE, COLUMN_IS_NULLABLE FROM SYS.EXA_ALL_COLUMNS ";
    let openings = ["WHERE COLUMN_SCHEMA = '", " AND COLUMN_NAME = '"];
    let (values, rest) = read_filters(sql.strip_prefix(head).unwrap(), &openings);
    assert_eq!(values, vec![schema, column]);
    assert_eq!(rest, " ORDER BY COLUMN_SCHEMA, COLUMN_TABLE, ORDINAL_POSITION");
}

#[test]
fn different_filters_ask_different_queries() {
    let connection = connection();
    assert_ne!(
        connection.get_tables::<Server>(None, Some("a'"), Some("b")).stmt.sql,
        connection.get_tables::<Server>(None, Some("a"), Some("'b")).stmt.sql
    );
    assert_ne!(
        connection.get_columns::<Server>(None, None, Some("a'"), Some("b")).stmt.sql,
        connection.get_columns::<Server>(None, None, Some("a"), Some("'b")).stmt.sql
    );
}
