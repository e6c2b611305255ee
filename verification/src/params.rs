//! Connection parameters and their builder.

use vstd::prelude::*;
use crate::duration::Duration;

verus! {

/// Everything that is needed to open a connection.
pub struct ConnectionParams {
    pub host: String,
    pub port: u16,
    pub username: String,
    pub password: String,
    pub schema: Option<String>,
    pub use_tls: bool,
    pub validate_server_certificate: bool,
    pub certificate_fingerprint: Option<String>,
    pub connection_timeout: Duration,
    pub query_timeout: Duration,
    pub idle_timeout: Duration,
}

/// What the transport is told before it connects.
pub struct TransportConnectionParams {
    pub host: String,
    pub port: u16,
    pub use_tls: bool,
    pub validate_server_certificate: bool,
    pub timeout_ms: u64,
    pub certificate_fingerprint: Option<String>,
}

/// Whom the transport logs in.
pub struct Credentials {
    pub username: String,
    pub password: String,
}

/// The parameters as far as a caller has given them.
pub struct ParamsBuilder {
    pub host: Option<String>,
    pub port: Option<u16>,
    pub username: Option<String>,
    pub password: Option<String>,
    pub schema: Option<String>,
    pub use_tls: Option<bool>,
}

/// The text of an optional string.
pub open spec fn optional_text(value: Option<String>) -> Option<Seq<char>> {
    match value {
        Some(text) => Some(text@),
        None => None,
    }
}

/// A [`ParamsBuilder`] with its texts as sequences of characters.
pub struct ParamsBuilderView {
    pub host: Option<Seq<char>>,
    pub port: Option<u16>,
    pub username: Option<Seq<char>>,
    pub password: Option<Seq<char>>,
    pub schema: Option<Seq<char>>,
    pub use_tls: Option<bool>,
}

impl View for ParamsBuilder {
    type V = ParamsBuilderView;

    open spec fn view(&self) -> ParamsBuilderView {
        ParamsBuilderView {
            host: optional_text(self.host),
            port: self.port,
            username: optional_text(self.username),
            password: optional_text(self.password),
            schema: optional_text(self.schema),
            use_tls: self.use_tls,
        }
    }
}

/// Copies an optional string.
pub(crate) fn copy_text(value: &Option<String>) -> (copy: Option<String>)
    ensures
        copy == *value,
{
    match value {
        Some(text) => Some(text.clone()),
        None => None,
    }
}

impl Clone for ConnectionParams {
    fn clone(&self) -> (copy: ConnectionParams)
        ensures
            copy == *self,
    {
        ConnectionParams {
            host: self.host.clone(),
            port: self.port,
            username: self.username.clone(),
            password: self.password.clone(),
            schema: copy_text(&self.schema),
            use_tls: self.use_tls,
            validate_server_certificate: self.validate_server_certificate,
            certificate_fingerprint: copy_text(&self.certificate_fingerprint),
            connection_timeout: self.connection_timeout,
            query_timeout: self.query_timeout,
            idle_timeout: self.idle_timeout,
        }
    }
}

/// The view of a builder shows each value that was given, all of its text,
/// and nothing where none was given.
pub proof fn builder_view_shows_what_was_given(builder: ParamsBuilder)
    ensures
        builder@.host is Some == builder.host is Some,
        builder.host matches Some(host) ==> builder@.host == Some(host@),
        builder@.port == builder.port,
        builder@.username is Some == builder.username is Some,
        builder.username matches Some(username) ==> builder@.username == Some(username@),
        builder@.password is Some == builder.password is Some,
        builder.password matches Some(password) ==> builder@.password == Some(password@),
        builder@.schema is Some == builder.schema is Some,
        builder.schema matches Some(schema) ==> builder@.schema == Some(schema@),
        builder@.use_tls == builder.use_tls,
{
}

} // verus!
