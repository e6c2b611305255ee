//! A connection to the database and what it decides.

use vstd::prelude::*;
use vstd::string::*;
use crate::duration::Duration;
use crate::error::{ConnectionError, ExasolError, QueryError};
use crate::metadata::{
    catalogs_sql, catalogs_text, columns_sql, columns_text, filter_text, schemas_sql, schemas_text,
    tables_sql, tables_text,
};
use crate::operation::{Next, Operation, PreparedPurpose, Purpose, Reply, Request, Task, Value};
use crate::operation::resumed;
use crate::params::copy_text;
use crate::params::{
    ConnectionParams, Credentials, ParamsBuilder, ParamsBuilderView, TransportConnectionParams,
};
use crate::session::{AuthResponseData, ServerInfo, SessionConfig, SessionInfo, SessionState};
use crate::statement::{Backend, PreparedStatement, Statement};

verus! {

/// A connection to the database: its session and the parameters that it was
/// opened with. Only the connection's own methods change its session.
pub struct Connection {
    session: SessionInfo,
    params: ConnectionParams,
}

/// Another name for [`Connection`].
pub type Session = Connection;

/// A connection whose transport is to be connected.
pub struct Connecting {
    pub params: ConnectionParams,
    pub transport: TransportConnectionParams,
}

/// A connection whose user is to be logged in.
pub struct Authenticating {
    pub params: ConnectionParams,
    pub credentials: Credentials,
}

/// A connection whose session is closed and whose transport is to be closed.
#[derive(Debug, PartialEq, Eq)]
pub struct ClosingTransport {
    pub host: String,
    pub port: u16,
}

/// A statement made for an operation that is about to start, and what its
/// result set is wanted for.
pub struct Started<B: Backend> {
    pub stmt: Statement<B>,
    pub purpose: Purpose,
}

/// What a connection shows of itself.
#[derive(Debug, PartialEq, Eq)]
pub struct DebugFields {
    pub session_id: String,
    pub host: String,
    pub port: u16,
    pub username: String,
    pub in_transaction: bool,
}

/// The milliseconds of a span as a timeout: in 64 bits, wrapping around.
pub open spec fn timeout_millis(span: Duration) -> int {
    span.whole_millis() as int % (u64::MAX + 1)
}

/// How an operation on an SQL statement starts: the session is asked whether
/// it can take a request.
pub open spec fn statement_start<'a, B: Backend>(
    stmt: &'a Statement<B>,
    purpose: Purpose,
) -> Next<'a, B> {
    Next::Ask(Request::ValidateReady, Operation::Validating(Task::Statement(stmt, purpose)))
}

/// How running a prepared statement starts: not at all if it is closed.
pub open spec fn prepared_start<'a, B: Backend>(
    stmt: &'a PreparedStatement<B>,
    purpose: PreparedPurpose,
) -> Next<'a, B> {
    if stmt.closed {
        Next::Done(Err(QueryError::StatementClosed))
    } else {
        Next::Ask(Request::ValidateReady, Operation::Validating(Task::Prepared(stmt, purpose)))
    }
}

/// How a preparation starts: the session is asked whether it can take a
/// request.
pub open spec fn prepare_start<'a, B: Backend>(sql: String) -> Next<'a, B> {
    Next::Ask(Request::ValidateReady, Operation::Validating(Task::Prepare { sql }))
}

/// How closing a prepared statement starts: there is nothing to do for one
/// that is closed.
pub open spec fn close_start<'a, B: Backend>(stmt: PreparedStatement<B>) -> Next<'a, B> {
    if stmt.closed {
        Next::Done(Ok(Value::Closed(stmt)))
    } else {
        Next::Ask(Request::ClosePrepared, Operation::ClosingPrepared { stmt })
    }
}

/// How a transaction starts: first the server stops to commit after each
/// statement.
pub open spec fn begin_start<'a, B: Backend>() -> Next<'a, B> {
    Next::Ask(Request::SetAutocommit { enabled: false }, Operation::DisablingAutocommit)
}

impl TransportConnectionParams {
    /// The part of the parameters that the transport needs.
    pub open spec fn taken_from(self, params: ConnectionParams) -> bool {
        &&& self.host == params.host
        &&& self.port == params.port
        &&& self.use_tls == params.use_tls
        &&& self.validate_server_certificate == params.validate_server_certificate
        &&& self.timeout_ms == timeout_millis(params.connection_timeout)
        &&& self.certificate_fingerprint == params.certificate_fingerprint
    }
}

impl Connecting {
    /// Goes on once the transport has connected or failed.
    pub fn connected(self, answer: Result<(), String>) -> (next: Result<
        Authenticating,
        ConnectionError,
    >)
        ensures
            match answer {
                Ok(()) => next == Ok::<Authenticating, ConnectionError>(
                    Authenticating {
                        params: self.params,
                        credentials: Credentials {
                            username: self.params.username,
                            password: self.params.password,
                        },
                    },
                ),
                Err(message) => next == Err::<Authenticating, ConnectionError>(
                    ConnectionError::ConnectionFailed {
                        host: self.params.host,
                        port: self.params.port,
                        message,
                    },
                ),
            },
    {
        match answer {
            Ok(()) => {
                let credentials = Credentials {
                    username: self.params.username.clone(),
                    password: self.params.password.clone(),
                };
                Ok(Authenticating { params: self.params, credentials })
            },
            Err(message) => Err(
                ConnectionError::ConnectionFailed {
                    host: self.params.host,
                    port: self.params.port,
                    message,
                },
            ),
        }
    }
}

impl Authenticating {
    /// Goes on once the server has accepted the user or not.
    pub fn authenticated(self, answer: Result<ServerInfo, String>) -> (connection: Result<
        Connection,
        ConnectionError,
    >)
        ensures
            match answer {
                Ok(server) => {
                    &&& connection matches Ok(opened)
                    &&& opened.opened_with() == self.params
                    &&& opened.session().consistent()
                    &&& opened.session().auth_response.describes(server)
                    &&& opened.session() == (SessionInfo {
                        session_id: server.session_id,
                        auth_response: opened.session().auth_response,
                        config: SessionConfig {
                            idle_timeout: self.params.idle_timeout,
                            query_timeout: self.params.query_timeout,
                        },
                        state: SessionState::Ready,
                        query_count: 0,
                        in_transaction: false,
                        current_schema: self.params.schema,
                        closed: false,
                    })
                },
                Err(message) => connection == Err::<Connection, ConnectionError>(
                    ConnectionError::AuthenticationFailed(message),
                ),
            },
    {
        match answer {
            Ok(server) => {
                let config = SessionConfig {
                    idle_timeout: self.params.idle_timeout,
                    query_timeout: self.params.query_timeout,
                };
                let session_id = server.session_id.clone();
                let auth_response = AuthResponseData::from_server(server);
                let mut session = SessionInfo::new(session_id, auth_response, config);
                if let Some(schema) = &self.params.schema {
                    session.current_schema = Some(schema.clone());
                }
                Ok(Connection { session, params: self.params })
            },
            Err(message) => Err(ConnectionError::AuthenticationFailed(message)),
        }
    }
}

impl ClosingTransport {
    /// Goes on once the transport has closed or failed to.
    pub fn closed(self, answer: Result<(), String>) -> (outcome: Result<(), ConnectionError>)
        ensures
            match answer {
                Ok(()) => outcome == Ok::<(), ConnectionError>(()),
                Err(message) => outcome == Err::<(), ConnectionError>(
                    ConnectionError::ConnectionFailed { host: self.host, port: self.port, message },
                ),
            },
    {
        match answer {
            Ok(()) => Ok(()),
            Err(message) => Err(
                ConnectionError::ConnectionFailed { host: self.host, port: self.port, message },
            ),
        }
    }
}

impl<B: Backend> Started<B> {
    /// Starts the operation on its statement.
    pub fn next<'a>(&'a self) -> (next: Next<'a, B>)
        ensures
            next == statement_start(&self.stmt, self.purpose),
            next == Next::Ask(
                Request::ValidateReady,
                Operation::Validating(Task::Statement(&self.stmt, self.purpose)),
            ),
    {
        Next::Ask(
            Request::ValidateReady,
            Operation::Validating(Task::Statement(&self.stmt, self.purpose.clone())),
        )
    }
}

impl Connection {
    /// The session of the connection.
    pub closed spec fn session(self) -> SessionInfo {
        self.session
    }

    /// The parameters that the connection was opened with.
    pub closed spec fn opened_with(self) -> ConnectionParams {
        self.params
    }

    /// A statement with this SQL, nothing bound to it, and the connection's
    /// query timeout.
    pub open spec fn makes_statement<B: Backend>(self, stmt: Statement<B>, sql: Seq<char>) -> bool {
        &&& stmt.sql@ == sql
        &&& stmt.bindings is None
        &&& stmt.timeout_ms == timeout_millis(self.opened_with().query_timeout)
    }

    /// An operation that runs this SQL in a statement of its own.
    pub open spec fn starts<B: Backend>(
        self,
        started: Started<B>,
        sql: Seq<char>,
        purpose: Purpose,
    ) -> bool {
        &&& self.makes_statement(started.stmt, sql)
        &&& started.purpose == purpose
    }

    /// Starts to open a connection.
    pub fn from_params(params: ConnectionParams) -> (connecting: Connecting)
        ensures
            connecting.params == params,
            connecting.transport.taken_from(params),
            connecting.transport.host == params.host,
            connecting.transport.port == params.port,
    {
        let transport = TransportConnectionParams {
            host: params.host.clone(),
            port: params.port,
            use_tls: params.use_tls,
            validate_server_certificate: params.validate_server_certificate,
            timeout_ms: params.connection_timeout.millis_u64(),
            certificate_fingerprint: copy_text(&params.certificate_fingerprint),
        };
        Connecting { params, transport }
    }

    /// A builder for a connection.
    pub fn builder() -> (builder: ConnectionBuilder)
        ensures
            builder@ == ConnectionBuilder::blank(),
    {
        ConnectionBuilder::new()
    }

    /// Makes a statement that runs under the connection's query timeout.
    pub fn create_statement<B: Backend>(&self, sql: String) -> (stmt: Statement<B>)
        ensures
            self.makes_statement(stmt, sql@),
            stmt.sql@ == sql@,
            stmt.bindings is None,
            stmt.timeout_ms == (self.opened_with().query_timeout.secs * 1000
                + self.opened_with().query_timeout.nanos / 1_000_000) % 0x1_0000_0000_0000_0000,
    {
        Statement { sql, bindings: None, timeout_ms: self.params.query_timeout.millis_u64() }
    }

    fn start_sql<B: Backend>(&self, sql: String, purpose: Purpose) -> (started: Started<B>)
        ensures
            self.starts(started, sql@, purpose),
            started.stmt.sql@ == sql@,
            started.purpose == purpose,
    {
        Started { stmt: self.create_statement(sql), purpose }
    }

    /// Goes on with an operation after a reply.
    pub fn resume<'a, B: Backend>(&mut self, operation: Operation<'a, B>, reply: Reply<B>) -> (next:
        Next<'a, B>)
        ensures
            (final(self).session(), next@) == resumed(old(self).session(), operation, reply),
            final(self).opened_with() == old(self).opened_with(),
            old(self).session().consistent() ==> final(self).session().consistent(),
            final(self).session().in_transaction == match (operation, reply) {
                (Operation::Beginning, Reply::Done(Ok(()))) => true,
                (Operation::Ending, Reply::Done(Ok(()))) => false,
                _ => old(self).session().in_transaction,
            },
    {
        self.session.resume(operation, reply)
    }

    /// Starts to run a statement for its result set.
    pub fn execute_statement<'a, B: Backend>(&self, stmt: &'a Statement<B>) -> (next: Next<'a, B>)
        ensures
            next == statement_start(stmt, Purpose::ResultSet),
            next == Next::Ask(
                Request::ValidateReady,
                Operation::Validating(Task::Statement(stmt, Purpose::ResultSet)),
            ),
    {
        Next::Ask(
            Request::ValidateReady,
            Operation::Validating(Task::Statement(stmt, Purpose::ResultSet)),
        )
    }

    /// Starts to run a statement for its row count.
    pub fn execute_statement_update<'a, B: Backend>(&self, stmt: &'a Statement<B>) -> (next: Next<
        'a,
        B,
    >)
        ensures
            next == statement_start(stmt, Purpose::RowCount),
            next == Next::Ask(
                Request::ValidateReady,
                Operation::Validating(Task::Statement(stmt, Purpose::RowCount)),
            ),
    {
        Next::Ask(
            Request::ValidateReady,
            Operation::Validating(Task::Statement(stmt, Purpose::RowCount)),
        )
    }

    /// Starts to have the server prepare a statement.
    pub fn prepare<'a, B: Backend>(&self, sql: String) -> (next: Next<'a, B>)
        ensures
            next == prepare_start::<B>(sql),
            next == Next::Ask(
                Request::<B>::ValidateReady,
                Operation::Validating(Task::Prepare { sql }),
            ),
    {
        Next::Ask(Request::ValidateReady, Operation::Validating(Task::Prepare { sql }))
    }

    /// Starts to run a prepared statement for its result set.
    pub fn execute_prepared<'a, B: Backend>(&self, stmt: &'a PreparedStatement<B>) -> (next: Next<
        'a,
        B,
    >)
        ensures
            next == prepared_start(stmt, PreparedPurpose::ResultSet),
            stmt.closed ==> next == Next::<B>::Done(Err(QueryError::StatementClosed)),
            !stmt.closed ==> next == Next::Ask(
                Request::ValidateReady,
                Operation::Validating(Task::Prepared(stmt, PreparedPurpose::ResultSet)),
            ),
    {
        if stmt.is_closed() {
            return Next::Done(Err(QueryError::StatementClosed));
        }
        Next::Ask(
            Request::ValidateReady,
            Operation::Validating(Task::Prepared(stmt, PreparedPurpose::ResultSet)),
        )
    }

    /// Starts to run a prepared statement for its row count.
    pub fn execute_prepared_update<'a, B: Backend>(&self, stmt: &'a PreparedStatement<B>) -> (next:
        Next<'a, B>)
        ensures
            next == prepared_start(stmt, PreparedPurpose::RowCount),
            stmt.closed ==> next == Next::<B>::Done(Err(QueryError::StatementClosed)),
            !stmt.closed ==> next == Next::Ask(
                Request::ValidateReady,
                Operation::Validating(Task::Prepared(stmt, PreparedPurpose::RowCount)),
            ),
    {
        if stmt.is_closed() {
            return Next::Done(Err(QueryError::StatementClosed));
        }
        Next::Ask(
            Request::ValidateReady,
            Operation::Validating(Task::Prepared(stmt, PreparedPurpose::RowCount)),
        )
    }

    /// Starts to have the server let go of a prepared statement. There is
    /// nothing to do for one that is closed.
    pub fn close_prepared<'a, B: Backend>(&self, stmt: PreparedStatement<B>) -> (next: Next<'a, B>)
        ensures
            next == close_start(stmt),
            stmt.closed ==> next == Next::Done(Ok(Value::Closed(stmt))),
            !stmt.closed ==> next == Next::Ask(
                Request::ClosePrepared,
                Operation::ClosingPrepared { stmt },
            ),
    {
        if stmt.is_closed() {
            return Next::Done(Ok(Value::Closed(stmt)));
        }
        Next::Ask(Request::ClosePrepared, Operation::ClosingPrepared { stmt })
    }

    /// Starts to run SQL for its result set.
    pub fn execute<B: Backend>(&self, sql: String) -> (started: Started<B>)
        ensures
            self.starts(started, sql@, Purpose::ResultSet),
            started.stmt.sql@ == sql@,
            started.purpose == Purpose::ResultSet,
    {
        self.start_sql(sql, Purpose::ResultSet)
    }

    /// Starts to run SQL for all of its rows.
    pub fn query<B: Backend>(&self, sql: String) -> (started: Started<B>)
        ensures
            self.starts(started, sql@, Purpose::Batches),
            started.stmt.sql@ == sql@,
            started.purpose == Purpose::Batches,
    {
        self.start_sql(sql, Purpose::Batches)
    }

    /// Starts to run SQL for its row count.
    pub fn execute_update<B: Backend>(&self, sql: String) -> (started: Started<B>)
        ensures
            self.starts(started, sql@, Purpose::RowCount),
            started.stmt.sql@ == sql@,
            started.purpose == Purpose::RowCount,
    {
        self.start_sql(sql, Purpose::RowCount)
    }

    /// Starts to begin a transaction: first the server stops to commit after
    /// each statement.
    pub fn begin_transaction<'a, B: Backend>(&self) -> (next: Next<'a, B>)
        ensures
            next == begin_start::<B>(),
            next matches Next::Ask(Request::SetAutocommit { enabled }, operation) && !enabled
                && operation is DisablingAutocommit,
    {
        Next::Ask(Request::SetAutocommit { enabled: false }, Operation::DisablingAutocommit)
    }

    /// Starts to commit the transaction. There is nothing to do outside one.
    pub fn commit<B: Backend>(&self) -> (started: Option<Started<B>>)
        ensures
            match started {
                Some(started) => self.session().in_transaction && self.starts(
                    started,
                    "COMMIT"@,
                    Purpose::Commit,
                ),
                None => !self.session().in_transaction,
            },
    {
        if !self.in_transaction() {
            return None;
        }
        Some(self.start_sql("COMMIT".to_string(), Purpose::Commit))
    }

    /// Starts to roll the transaction back. There is nothing to do outside
    /// one.
    pub fn rollback<B: Backend>(&self) -> (started: Option<Started<B>>)
        ensures
            match started {
                Some(started) => self.session().in_transaction && self.starts(
                    started,
                    "ROLLBACK"@,
                    Purpose::Rollback,
                ),
                None => !self.session().in_transaction,
            },
    {
        if !self.in_transaction() {
            return None;
        }
        Some(self.start_sql("ROLLBACK".to_string(), Purpose::Rollback))
    }

    /// Whether a transaction is active.
    pub fn in_transaction(&self) -> (active: bool)
        ensures
            active == self.session().in_transaction,
    {
        self.session.in_transaction
    }

    /// The current schema, if one is set.
    pub fn current_schema(&self) -> (schema: Option<String>)
        ensures
            schema == self.session().current_schema,
    {
        copy_text(&self.session.current_schema)
    }

    /// Starts to open a schema.
    pub fn set_schema<B: Backend>(&self, schema: String) -> (started: Started<B>)
        ensures
            self.starts(started, "OPEN SCHEMA "@ + schema@, Purpose::OpenSchema(schema)),
            started.stmt.sql@ == "OPEN SCHEMA "@ + schema@,
            started.purpose == Purpose::OpenSchema(schema),
    {
        let mut sql = "OPEN SCHEMA ".to_string();
        sql.append(schema.as_str());
        self.start_sql(sql, Purpose::OpenSchema(schema))
    }

    /// Starts to list the catalogs.
    pub fn get_catalogs<B: Backend>(&self) -> (started: Started<B>)
        ensures
            self.starts(started, catalogs_text(), Purpose::ResultSet),
    {
        self.execute(catalogs_sql())
    }

    /// Starts to list the schemas, or the one that `catalog` names.
    pub fn get_schemas<B: Backend>(&self, catalog: Option<&str>) -> (started: Started<B>)
        ensures
            self.starts(started, schemas_text(filter_text(catalog)), Purpose::ResultSet),
    {
        self.execute(schemas_sql(catalog))
    }

    /// Starts to list tables and views. `catalog` and `schema` both name a
    /// schema.
    pub fn get_tables<B: Backend>(
        &self,
        catalog: Option<&str>,
        schema: Option<&str>,
        table: Option<&str>,
    ) -> (started: Started<B>)
        ensures
            self.starts(
                started,
                tables_text(filter_text(catalog), filter_text(schema), filter_text(table)),
                Purpose::ResultSet,
            ),
    {
        self.execute(tables_sql(catalog, schema, table))
    }

    /// Starts to list columns. `catalog` and `schema` both name a schema.
    pub fn get_columns<B: Backend>(
        &self,
        catalog: Option<&str>,
        schema: Option<&str>,
        table: Option<&str>,
        column: Option<&str>,
    ) -> (started: Started<B>)
        ensures
            self.starts(
                started,
                columns_text(
                    filter_text(catalog),
                    filter_text(schema),
                    filter_text(table),
                    filter_text(column),
                ),
                Purpose::ResultSet,
            ),
    {
        self.execute(columns_sql(catalog, schema, table, column))
    }

    /// The id of the session.
    pub fn session_id(&self) -> (id: &str)
        ensures
            id@ == self.session().session_id@,
    {
        self.session.session_id.as_str()
    }

    /// The parameters that the connection was opened with.
    pub fn params(&self) -> (params: &ConnectionParams)
        ensures
            *params == self.opened_with(),
    {
        &self.params
    }

    /// What the connection keeps about its session.
    pub fn session_info(&self) -> (session: &SessionInfo)
        ensures
            *session == self.session(),
    {
        &self.session
    }

    /// Whether the connection is closed.
    pub fn is_closed(&self) -> (closed: bool)
        ensures
            closed == self.session().closed,
    {
        self.session.closed
    }

    /// Closes the connection for good, once its session has closed or failed
    /// to. The transport is closed after the session, and only then.
    pub fn close(self, answer: Result<(), ConnectionError>) -> (next: Result<
        ClosingTransport,
        ConnectionError,
    >)
        ensures
            match answer {
                Ok(()) => next == Ok::<ClosingTransport, ConnectionError>(
                    ClosingTransport {
                        host: self.opened_with().host,
                        port: self.opened_with().port,
                    },
                ),
                Err(error) => next == Err::<ClosingTransport, ConnectionError>(error),
            },
    {
        match answer {
            Ok(()) => Ok(ClosingTransport { host: self.params.host, port: self.params.port }),
            Err(error) => Err(error),
        }
    }

    /// Closes the connection, once its session has closed or failed to, and
    /// leaves it to its owner. The transport is closed after the session, and
    /// only then.
    pub fn shutdown(&mut self, answer: Result<(), ConnectionError>) -> (next: Result<
        ClosingTransport,
        ConnectionError,
    >)
        ensures
            final(self).opened_with() == old(self).opened_with(),
            match answer {
                Ok(()) => {
                    &&& final(self).session() == (SessionInfo {
                        closed: true,
                        ..old(self).session()
                    })
                    &&& next == Ok::<ClosingTransport, ConnectionError>(
                        ClosingTransport {
                            host: old(self).opened_with().host,
                            port: old(self).opened_with().port,
                        },
                    )
                },
                Err(error) => {
                    &&& final(self).session() == old(self).session()
                    &&& next == Err::<ClosingTransport, ConnectionError>(error)
                },
            },
    {
        match answer {
            Ok(()) => {
                self.session.closed = true;
                Ok(ClosingTransport { host: self.params.host.clone(), port: self.params.port })
            },
            Err(error) => Err(error),
        }
    }

    /// What may be shown of the connection: no password.
    pub fn debug_fields(&self) -> (fields: DebugFields)
        ensures
            fields == (DebugFields {
                session_id: self.session().session_id,
                host: self.opened_with().host,
                port: self.opened_with().port,
                username: self.opened_with().username,
                in_transaction: self.session().in_transaction,
            }),
    {
        DebugFields {
            session_id: self.session.session_id.clone(),
            host: self.params.host.clone(),
            port: self.params.port,
            username: self.params.username.clone(),
            in_transaction: self.session.in_transaction,
        }
    }
}

/// Builder for connections.
pub struct ConnectionBuilder {
    pub params_builder: ParamsBuilder,
}

impl View for ConnectionBuilder {
    type V = ParamsBuilderView;

    open spec fn view(&self) -> ParamsBuilderView {
        self.params_builder@
    }
}

impl ConnectionBuilder {
    /// Nothing given yet.
    pub open spec fn blank() -> ParamsBuilderView {
        ParamsBuilderView {
            host: None,
            port: None,
            username: None,
            password: None,
            schema: None,
            use_tls: None,
        }
    }

    /// A builder with nothing given yet.
    pub fn new() -> (builder: ConnectionBuilder)
        ensures
            builder@ == ConnectionBuilder::blank(),
    {
        ConnectionBuilder {
            params_builder: ParamsBuilder {
                host: None,
                port: None,
                username: None,
                password: None,
                schema: None,
                use_tls: None,
            },
        }
    }

    /// Sets the database host.
    pub fn host(self, host: &str) -> (builder: ConnectionBuilder)
        ensures
            builder@ == (ParamsBuilderView { host: Some(host@), ..self@ }),
            builder.params_builder.host matches Some(given) && given@ == host@,
            builder.params_builder.port == self.params_builder.port,
            builder.params_builder.username == self.params_builder.username,
            builder.params_builder.password == self.params_builder.password,
            builder.params_builder.schema == self.params_builder.schema,
            builder.params_builder.use_tls == self.params_builder.use_tls,
    {
        ConnectionBuilder {
            params_builder: ParamsBuilder { host: Some(host.to_string()), ..self.params_builder },
        }
    }

    /// Sets the database port.
    pub fn port(self, port: u16) -> (builder: ConnectionBuilder)
        ensures
            builder@ == (ParamsBuilderView { port: Some(port), ..self@ }),
            builder.params_builder.port == Some(port),
            builder.params_builder.host == self.params_builder.host,
            builder.params_builder.username == self.params_builder.username,
            builder.params_builder.password == self.params_builder.password,
            builder.params_builder.schema == self.params_builder.schema,
            builder.params_builder.use_tls == self.params_builder.use_tls,
    {
        ConnectionBuilder {
            params_builder: ParamsBuilder { port: Some(port), ..self.params_builder },
        }
    }

    /// Sets the user name.
    pub fn username(self, username: &str) -> (builder: ConnectionBuilder)
        ensures
            builder@ == (ParamsBuilderView { username: Some(username@), ..self@ }),
            builder.params_builder.username matches Some(given) && given@ == username@,
            builder.params_builder.host == self.params_builder.host,
            builder.params_builder.port == self.params_builder.port,
            builder.params_builder.password == self.params_builder.password,
            builder.params_builder.schema == self.params_builder.schema,
            builder.params_builder.use_tls == self.params_builder.use_tls,
    {
        ConnectionBuilder {
            params_builder: ParamsBuilder { username: Some(username.to_string()), ..self.params_builder },
        }
    }

    /// Sets the password.
    pub fn password(self, password: &str) -> (builder: ConnectionBuilder)
        ensures
            builder@ == (ParamsBuilderView { password: Some(password@), ..self@ }),
            builder.params_builder.password matches Some(given) && given@ == password@,
            builder.params_builder.host == self.params_builder.host,
            builder.params_builder.port == self.params_builder.port,
            builder.params_builder.username == self.params_builder.username,
            builder.params_builder.schema == self.params_builder.schema,
            builder.params_builder.use_tls == self.params_builder.use_tls,
    {
        ConnectionBuilder {
            params_builder: ParamsBuilder { password: Some(password.to_string()), ..self.params_builder },
        }
    }

    /// Sets the default schema.
    pub fn schema(self, schema: &str) -> (builder: ConnectionBuilder)
        ensures
            builder@ == (ParamsBuilderView { schema: Some(schema@), ..self@ }),
            builder.params_builder.schema matches Some(given) && given@ == schema@,
            builder.params_builder.host == self.params_builder.host,
            builder.params_builder.port == self.params_builder.port,
            builder.params_builder.username == self.params_builder.username,
            builder.params_builder.password == self.params_builder.password,
            builder.params_builder.use_tls == self.params_builder.use_tls,
    {
        ConnectionBuilder {
            params_builder: ParamsBuilder { schema: Some(schema.to_string()), ..self.params_builder },
        }
    }

    /// Turns TLS on or off.
    pub fn use_tls(self, use_tls: bool) -> (builder: ConnectionBuilder)
        ensures
            builder@ == (ParamsBuilderView { use_tls: Some(use_tls), ..self@ }),
            builder.params_builder.use_tls == Some(use_tls),
            builder.params_builder.host == self.params_builder.host,
            builder.params_builder.port == self.params_builder.port,
            builder.params_builder.username == self.params_builder.username,
            builder.params_builder.password == self.params_builder.password,
            builder.params_builder.schema == self.params_builder.schema,
    {
        ConnectionBuilder {
            params_builder: ParamsBuilder { use_tls: Some(use_tls), ..self.params_builder },
        }
    }

    /// Starts to connect: hands over what has been given, for the parameters
    /// to be made of it.
    pub fn connect(self) -> (builder: ParamsBuilder)
        ensures
            builder == self.params_builder,
    {
        self.params_builder
    }

    /// Goes on once the parameters have been made or found wanting.
    pub fn built(answer: Result<ConnectionParams, ExasolError>) -> (next: Result<
        Connecting,
        ExasolError,
    >)
        ensures
            match answer {
                Ok(params) => next matches Ok(connecting) && connecting.params == params
                    && connecting.transport.taken_from(params),
                Err(error) => next == Err::<Connecting, ExasolError>(error),
            },
    {
        match answer {
            Ok(params) => Ok(Connection::from_params(params)),
            Err(error) => Err(error),
        }
    }
}

impl Default for ConnectionBuilder {
    fn default() -> (builder: ConnectionBuilder)
        ensures
            builder@ == ConnectionBuilder::blank(),
    {
        ConnectionBuilder::new()
    }
}

/// A statement that a connection makes holds the SQL that was given, character
/// for character, with nothing bound to it. It may run for as many whole
/// milliseconds as the connection's query timeout has, in 64 bits.
pub proof fn statement_holds_the_given_sql<B: Backend>(
    connection: Connection,
    stmt: Statement<B>,
    sql: Seq<char>,
)
    requires
        connection.makes_statement(stmt, sql),
    ensures
        stmt.sql@.len() == sql.len(),
        forall|i: int| 0 <= i < sql.len() ==> #[trigger] stmt.sql@[i] == sql[i],
        stmt.bindings is None,
        stmt.timeout_ms == (connection.opened_with().query_timeout.secs * 1000
            + connection.opened_with().query_timeout.nanos / 1_000_000) % 0x1_0000_0000_0000_0000,
{
    crate::duration::span_in_units(connection.opened_with().query_timeout, 0);
}

/// An operation on SQL runs that SQL, character for character, and for the
/// purpose that it was started for.
pub proof fn operation_runs_the_given_sql<B: Backend>(
    connection: Connection,
    started: Started<B>,
    sql: Seq<char>,
    purpose: Purpose,
)
    requires
        connection.starts(started, sql, purpose),
    ensures
        started.stmt.sql@.len() == sql.len(),
        forall|i: int| 0 <= i < sql.len() ==> #[trigger] started.stmt.sql@[i] == sql[i],
        started.stmt.bindings is None,
        started.stmt.timeout_ms == (connection.opened_with().query_timeout.secs * 1000
            + connection.opened_with().query_timeout.nanos / 1_000_000) % 0x1_0000_0000_0000_0000,
        started.purpose == purpose,
{
    statement_holds_the_given_sql(connection, started.stmt, sql);
}

/// The transport is told where to connect and how, as the parameters say.
pub proof fn transport_follows_the_parameters(
    transport: TransportConnectionParams,
    params: ConnectionParams,
)
    requires
        transport.taken_from(params),
    ensures
        transport.host == params.host,
        transport.port == params.port,
        transport.use_tls == params.use_tls,
        transport.validate_server_certificate == params.validate_server_certificate,
        transport.certificate_fingerprint == params.certificate_fingerprint,
        transport.timeout_ms == (params.connection_timeout.secs * 1000
            + params.connection_timeout.nanos / 1_000_000) % 0x1_0000_0000_0000_0000,
{
    crate::duration::span_in_units(params.connection_timeout, 0);
}

/// The server hears nothing before the session has been asked: running a
/// statement and preparing one start with the question whether the session can
/// take a request, and the operation remembers what it is about. A closed
/// statement is neither run nor closed again. A transaction starts by turning
/// autocommit off.
pub proof fn operations_start_with_the_session<B: Backend>(
    stmt: &Statement<B>,
    prepared: &PreparedStatement<B>,
    sql: String,
    purpose: Purpose,
    prepared_purpose: PreparedPurpose,
)
    ensures
        statement_start(stmt, purpose) == Next::Ask(
            Request::ValidateReady,
            Operation::Validating(Task::Statement(stmt, purpose)),
        ),
        prepare_start::<B>(sql) == Next::Ask(
            Request::<B>::ValidateReady,
            Operation::Validating(Task::Prepare { sql }),
        ),
        prepared.closed ==> prepared_start(prepared, prepared_purpose) == Next::<B>::Done(
            Err(QueryError::StatementClosed),
        ),
        !prepared.closed ==> prepared_start(prepared, prepared_purpose) == Next::Ask(
            Request::ValidateReady,
            Operation::Validating(Task::Prepared(prepared, prepared_purpose)),
        ),
        prepared.closed ==> close_start(*prepared) == Next::Done(Ok(Value::Closed(*prepared))),
        !prepared.closed ==> close_start(*prepared) == Next::Ask(
            Request::ClosePrepared,
            Operation::ClosingPrepared { stmt: *prepared },
        ),
        begin_start::<B>() matches Next::Ask(Request::SetAutocommit { enabled }, operation)
            && !enabled && operation is DisablingAutocommit,
{
}

/// A blank builder has nothing, and a builder shows what its parameters show.
pub proof fn blank_builder_has_nothing(builder: ConnectionBuilder)
    ensures
        ConnectionBuilder::blank().host is None,
        ConnectionBuilder::blank().port is None,
        ConnectionBuilder::blank().username is None,
        ConnectionBuilder::blank().password is None,
        ConnectionBuilder::blank().schema is None,
        ConnectionBuilder::blank().use_tls is None,
        builder@ == builder.params_builder@,
{
}

} // verus!
