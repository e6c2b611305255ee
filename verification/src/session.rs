//! What a connection keeps about its session.

use vstd::prelude::*;
use crate::duration::Duration;

verus! {

/// What the session is busy with.
#[derive(Clone, Copy, Debug, PartialEq, Eq, Structural)]
pub enum SessionState {
    Ready,
    Executing,
    InTransaction,
}

/// The limits that a session runs under.
#[derive(Clone, Copy, Debug, PartialEq, Eq)]
pub struct SessionConfig {
    pub idle_timeout: Duration,
    pub query_timeout: Duration,
}

/// What the transport reports of the server after a login.
pub struct ServerInfo {
    pub session_id: String,
    pub protocol_version: i64,
    pub release_version: String,
    pub database_name: String,
    pub product_name: String,
    pub max_data_message_size: i64,
    pub time_zone: Option<String>,
}

/// What the session knows of the server.
pub struct AuthResponseData {
    pub session_id: String,
    pub protocol_version: i64,
    pub release_version: String,
    pub database_name: String,
    pub product_name: String,
    pub max_data_message_size: i64,
    pub max_identifier_length: i64,
    pub max_varchar_length: i64,
    pub identifier_quote_string: String,
    pub time_zone: String,
    pub time_zone_behavior: String,
}

/// A session with the server.
pub struct SessionInfo {
    pub session_id: String,
    pub auth_response: AuthResponseData,
    pub config: SessionConfig,
    pub state: SessionState,
    pub query_count: u64,
    pub in_transaction: bool,
    pub current_schema: Option<String>,
    pub closed: bool,
}

/// The state of a session that waits for the next request.
pub open spec fn idle_state(in_transaction: bool) -> SessionState {
    if in_transaction {
        SessionState::InTransaction
    } else {
        SessionState::Ready
    }
}

/// The query count after one more query; it wraps around.
pub open spec fn counted(query_count: u64) -> u64 {
    if query_count == u64::MAX {
        0
    } else {
        (query_count + 1) as u64
    }
}

impl AuthResponseData {
    /// The values that the server reported, and the defaults for those that it
    /// does not report.
    pub open spec fn describes(self, server: ServerInfo) -> bool {
        &&& self.session_id == server.session_id
        &&& self.protocol_version == server.protocol_version
        &&& self.release_version == server.release_version
        &&& self.database_name == server.database_name
        &&& self.product_name == server.product_name
        &&& self.max_data_message_size == server.max_data_message_size
        &&& self.max_identifier_length == 128
        &&& self.max_varchar_length == 2_000_000
        &&& self.identifier_quote_string@ == "\""@
        &&& self.time_zone@ == match server.time_zone {
            Some(zone) => zone@,
            None => "UTC"@,
        }
        &&& self.time_zone_behavior@ == "INVALID TIMESTAMP TO DOUBLE"@
    }

    /// Fills in what the server does not report.
    pub fn from_server(server: ServerInfo) -> (data: AuthResponseData)
        ensures
            data.describes(server),
    {
        let time_zone = match server.time_zone {
            Some(zone) => zone,
            None => "UTC".to_string(),
        };
        AuthResponseData {
            session_id: server.session_id,
            protocol_version: server.protocol_version,
            release_version: server.release_version,
            database_name: server.database_name,
            product_name: server.product_name,
            max_data_message_size: server.max_data_message_size,
            max_identifier_length: 128,
            max_varchar_length: 2_000_000,
            identifier_quote_string: "\"".to_string(),
            time_zone,
            time_zone_behavior: "INVALID TIMESTAMP TO DOUBLE".to_string(),
        }
    }
}

impl SessionInfo {
    /// A session that is not busy shows by its state whether a transaction is
    /// open.
    pub open spec fn consistent(self) -> bool {
        self.state is Executing || self.state == idle_state(self.in_transaction)
    }

    /// This session while it runs a request.
    pub open spec fn executing(self) -> SessionInfo {
        SessionInfo { state: SessionState::Executing, ..self }
    }

    /// This session after one more query has been counted.
    pub open spec fn with_query_counted(self) -> SessionInfo {
        SessionInfo { query_count: counted(self.query_count), ..self }
    }

    /// This session after the server has answered a request.
    pub open spec fn settled(self) -> SessionInfo {
        SessionInfo { state: idle_state(self.in_transaction), ..self }
    }

    /// This session, at rest, with a transaction open or not.
    pub open spec fn with_transaction(self, in_transaction: bool) -> SessionInfo {
        SessionInfo { in_transaction, state: idle_state(in_transaction), ..self }
    }

    /// This session in another schema.
    pub open spec fn with_schema(self, schema: String) -> SessionInfo {
        SessionInfo { current_schema: Some(schema), ..self }
    }

    /// A fresh session: ready, outside any transaction, with no schema.
    pub fn new(
        session_id: String,
        auth_response: AuthResponseData,
        config: SessionConfig,
    ) -> (session: SessionInfo)
        ensures
            session == (SessionInfo {
                session_id,
                auth_response,
                config,
                state: SessionState::Ready,
                query_count: 0,
                in_transaction: false,
                current_schema: None,
                closed: false,
            }),
            session.consistent(),
    {
        SessionInfo {
            session_id,
            auth_response,
            config,
            state: SessionState::Ready,
            query_count: 0,
            in_transaction: false,
            current_schema: None,
            closed: false,
        }
    }

    /// Puts the session back at rest.
    pub(crate) fn settle(&mut self)
        ensures
            *final(self) == old(self).settled(),
            final(self).in_transaction == old(self).in_transaction,
            old(self).in_transaction ==> final(self).state == SessionState::InTransaction,
            !old(self).in_transaction ==> final(self).state == SessionState::Ready,
            final(self).current_schema == old(self).current_schema,
            final(self).query_count == old(self).query_count,
    {
        if self.in_transaction {
            self.state = SessionState::InTransaction;
        } else {
            self.state = SessionState::Ready;
        }
    }

    /// Notes that a transaction has been begun or ended.
    pub(crate) fn set_transaction(&mut self, in_transaction: bool)
        ensures
            *final(self) == old(self).with_transaction(in_transaction),
            final(self).in_transaction == in_transaction,
            in_transaction ==> final(self).state == SessionState::InTransaction,
            !in_transaction ==> final(self).state == SessionState::Ready,
            final(self).current_schema == old(self).current_schema,
            final(self).query_count == old(self).query_count,
    {
        self.in_transaction = in_transaction;
        self.settle();
    }

    /// Counts one more query.
    pub(crate) fn increment_query_count(&mut self)
        ensures
            *final(self) == old(self).with_query_counted(),
            final(self).query_count == (old(self).query_count + 1) % 0x1_0000_0000_0000_0000,
    {
        self.query_count = if self.query_count == u64::MAX {
            0
        } else {
            self.query_count + 1
        };
    }
}

/// A session is consistent if and only if it is busy, or shows by its state
/// whether a transaction is open.
pub proof fn consistent_sessions(session: SessionInfo)
    ensures
        session.consistent() == match session.state {
            SessionState::Executing => true,
            SessionState::InTransaction => session.in_transaction,
            SessionState::Ready => !session.in_transaction,
        },
{
}

/// What the session knows of the server is what the server reported, and the
/// defaults for what it did not report.
pub proof fn server_is_known_as_it_reported(data: AuthResponseData, server: ServerInfo)
    requires
        data.describes(server),
    ensures
        data.session_id == server.session_id,
        data.protocol_version == server.protocol_version,
        data.release_version == server.release_version,
        data.database_name == server.database_name,
        data.product_name == server.product_name,
        data.max_data_message_size == server.max_data_message_size,
        server.time_zone matches Some(zone) ==> data.time_zone@ == zone@,
        server.time_zone is None ==> data.time_zone@ == "UTC"@,
        data.max_identifier_length == 128,
        data.max_varchar_length == 2_000_000,
        data.identifier_quote_string@ == "\""@,
        data.time_zone_behavior@ == "INVALID TIMESTAMP TO DOUBLE"@,
{
}

} // verus!
