use exarrow_rs::connection::{Connection, ConnectionBuilder, Session};
use exarrow_rs::duration::Duration;
use exarrow_rs::error::{ConnectionError, ExasolError};
use exarrow_rs::params::ConnectionParams;
use exarrow_rs::session::{ServerInfo, SessionState};

fn params(schema: Option<&str>) -> ConnectionParams {
    ConnectionParams {
        host: "db.example".to_string(),
        port: 8563,
        username: "sys".to_string(),
        password: "secret".to_string(),
        schema: schema.map(|s| s.to_string()),
        use_tls: true,
        validate_server_certificate: false,
        certificate_fingerprint: Some("ab:cd".to_string()),
        connection_timeout: Duration { secs: 30, nanos: 999_999_999 },
        query_timeout: Duration { secs: 300, nanos: 1_500_000 },
        idle_timeout: Duration { secs: 600, nanos: 0 },
    }
}

fn server(time_zone: Option<&str>) -> ServerInfo {
    ServerInfo {
        session_id: "17".to_string(),
        protocol_version: 3,
        release_version: "8.0".to_string(),
        database_name: "DB1".to_string(),
        product_name: "EXASolution".to_string(),
        max_data_message_size: 4_194_304,
        time_zone: time_zone.map(|s| s.to_string()),
    }
}

#[test]
fn test_connection_builder() {
    let builder = ConnectionBuilder::new()
        .host("localhost")
        .port(8563)
        .username("test")
        .password("secret")
        .schema("MY_SCHEMA")
        .use_tls(false);

    let given = builder.connect();
    assert_eq!(given.host.as_deref(), Some("localhost"));
    assert_eq!(given.port, Some(8563));
    assert_eq!(given.username.as_deref(), Some("test"));
    assert_eq!(given.password.as_deref(), Some("secret"));
    assert_eq!(given.schema.as_deref(), Some("MY_SCHEMA"));
    assert_eq!(given.use_tls, Some(false));
}

#[test]
fn builder_keeps_the_last_value_and_leaves_the_rest_open() {
    let given = Connection::builder().host("a").port(1).host("b").connect();
    assert_eq!(given.host.as_deref(), Some("b"));
    assert_eq!(given.port, Some(1));
    assert_eq!(given.username, None);
    assert_eq!(given.use_tls, None);

    let blank = ConnectionBuilder::default().connect();
    assert_eq!(blank.host, None);
    assert_eq!(blank.schema, None);
}

#[test]
fn test_session_type_alias_exists() {
    let takes_session = |_session: &Session| {};
    let takes_connection = |_connection: &Connection| {};
    let connection = Connection::from_params(params(None))
        .connected(Ok(()))
        .ok()
        .and_then(|next| next.authenticated(Ok(server(None))).ok())
        .unwrap();
    takes_session(&connection);
    takes_connection(&connection);
}

#[test]
fn parameters_that_cannot_be_built_end_the_attempt() {
    let outcome = ConnectionBuilder::built(Err(ExasolError::Parameters("no host".to_string())));
    assert!(matches!(outcome, Err(ExasolError::Parameters(message)) if message == "no host"));

    let connecting = ConnectionBuilder::built(Ok(params(None))).ok().unwrap();
    assert_eq!(connecting.transport.host, "db.example");
}

#[test]
fn connection_errors_become_errors_of_the_builder() {
    let error = ExasolError::from(ConnectionError::AuthenticationFailed("no".to_string()));
    assert_eq!(
        error,
        ExasolError::Connection(ConnectionError::AuthenticationFailed("no".to_string()))
    );
}

#[test]
fn transport_gets_its_part_of_the_parameters() {
    let connecting = Connection::from_params(params(None));
    let transport = &connecting.transport;
    assert_eq!(transport.host, "db.example");
    assert_eq!(transport.port, 8563);
    assert!(transport.use_tls);
    assert!(!transport.validate_server_certificate);
    assert_eq!(transport.timeout_ms, 30_999);
    assert_eq!(transport.certificate_fingerprint.as_deref(), Some("ab:cd"));
}

#[test]
fn failed_transport_is_reported_with_its_address() {
    let outcome = Connection::from_params(params(None)).connected(Err("refused".to_string()));
    assert_eq!(
        outcome.err(),
        Some(ConnectionError::ConnectionFailed {
            host: "db.example".to_string(),
            port: 8563,
            message: "refused".to_string(),
        })
    );
}

#[test]
fn user_is_logged_in_and_may_be_refused() {
    let authenticating = Connection::from_params(params(None)).connected(Ok(())).ok().unwrap();
    assert_eq!(authenticating.credentials.username, "sys");
    assert_eq!(authenticating.credentials.password, "secret");
    let outcome = authenticating.authenticated(Err("wrong password".to_string()));
    assert_eq!(
        outcome.err(),
        Some(ConnectionError::AuthenticationFailed("wrong password".to_string()))
    );
}

#[test]
fn opened_connection_starts_in_its_schema() {
    let connection = Connection::from_params(params(Some("SALES")))
        .connected(Ok(()))
        .ok()
        .unwrap()
        .authenticated(Ok(server(Some("EUROPE/BERLIN"))))
        .ok()
        .unwrap();
    assert_eq!(connection.session_id(), "17");
    assert_eq!(connection.current_schema().as_deref(), Some("SALES"));
    assert_eq!(connection.params().host, "db.example");
    assert!(!connection.in_transaction());
    assert!(!connection.is_closed());

    let session = connection.session_info();
    assert_eq!(session.state, SessionState::Ready);
    assert_eq!(session.query_count, 0);
    assert_eq!(session.config.query_timeout, Duration { secs: 300, nanos: 1_500_000 });
    assert_eq!(session.config.idle_timeout, Duration { secs: 600, nanos: 0 });

    let known = &session.auth_response;
    assert_eq!(known.session_id, "17");
    assert_eq!(known.protocol_version, 3);
    assert_eq!(known.release_version, "8.0");
    assert_eq!(known.database_name, "DB1");
    assert_eq!(known.product_name, "EXASolution");
    assert_eq!(known.max_data_message_size, 4_194_304);
    assert_eq!(known.max_identifier_length, 128);
    assert_eq!(known.max_varchar_length, 2_000_000);
    assert_eq!(known.identifier_quote_string, "\"");
    assert_eq!(known.time_zone, "EUROPE/BERLIN");
    assert_eq!(known.time_zone_behavior, "INVALID TIMESTAMP TO DOUBLE");
}

#[test]
fn opened_connection_without_schema_or_time_zone() {
    let connection = Connection::from_params(params(None))
        .connected(Ok(()))
        .ok()
        .unwrap()
        .authenticated(Ok(server(None)))
        .ok()
        .unwrap();
    assert_eq!(connection.current_schema(), None);
    assert_eq!(connection.session_info().auth_response.time_zone, "UTC");
}

#[test]
fn what_is_shown_holds_no_password() {
    let connection = Connection::from_params(params(None))
        .connected(Ok(()))
        .ok()
        .unwrap()
        .authenticated(Ok(server(None)))
        .ok()
        .unwrap();
    let shown = format!("{:?}", connection.debug_fields());
    assert!(shown.contains("session_id: \"17\""));
    assert!(shown.contains("host: \"db.example\""));
    assert!(shown.contains("port: 8563"));
    assert!(shown.contains("username: \"sys\""));
    assert!(shown.contains("in_transaction: false"));
    assert!(!shown.contains("secret"));
}

#[test]
fn durations_in_milliseconds() {
    assert_eq!(Duration { secs: 1, nanos: 1_999_999 }.as_millis(), 1001);
    assert_eq!(Duration { secs: 0, nanos: 999_999 }.as_millis(), 0);
    assert_eq!(Duration::from_millis(1500), Duration { secs: 1, nanos: 500_000_000 });
    assert_eq!(Duration::from_millis(1500).as_millis(), 1500);
    let longest = Duration { secs: u64::MAX, nanos: 999_000_000 };
    assert_eq!(longest.as_millis(), 18_446_744_073_709_551_615_999);
    assert_eq!(longest.millis_u64(), 18_446_744_073_709_551_615);
    assert_eq!(Duration { secs: 18_446_744_073_709_552, nanos: 0 }.millis_u64(), 384);
}
