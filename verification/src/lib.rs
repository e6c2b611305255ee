//! The decisions of a database connection, kept apart from its input and output.
//!
//! A connection sends nothing by itself. Each operation says what is to be done
//! next, is told what came of it, and says what follows, until it has a result.
//! Whoever holds the transport and the session rules performs the requests.

pub mod connection;
pub mod duration;
pub mod error;
pub mod laws;
pub mod metadata;
pub mod operation;
pub mod params;
pub mod run;
pub mod session;
pub mod statement;
pub mod text;
pub mod transfer;
