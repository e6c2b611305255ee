# exarrow_rs

The decisions of a connection to an Exasol database, verified with Verus.

The library sends nothing. An operation says what it needs next, is told what
came of it, and goes on from there until it has an outcome. What it asks for,
what it does to the session and what it returns is stated in contracts and
proved, for every answer of the server, the transport and the session rules.
A request says all that is needed to perform it: the SQL, the statement with the
values bound to it, or the handle of a prepared statement. Only a statement that
is being closed is held by the operation itself.

- `src/connection.rs`: the connection, its builder, and how each operation starts
- `src/operation.rs`: requests, replies, and how an operation goes on
- `src/session.rs`, `src/statement.rs`, `src/params.rs`, `src/error.rs`: the data
- `src/metadata.rs`, `src/text.rs`: the SQL of the catalog queries, and that it reads back
- `src/transfer.rs`: what imports and exports are handed
- `src/duration.rs`: time spans and their milliseconds
- `src/run.rs`, `src/laws.rs`: whole runs of an operation, and what holds of them
- `app/`: performs the requests over tokio, with Arrow record batches
- `tests/`: the library at work with scripted answers
