//! A foreign-table bridge: relational scans, inserts, updates and deletes on a
//! local table handle are turned into streaming requests against a remote row
//! server, and the streamed answers are turned back into native rows.
//!
//! The crate is organised bottom-up:
//! - [`value`] holds the generic tagged value that every column value is
//!   carried as on the wire, together with the JSON-like tree used for
//!   semi-structured columns;
//! - [`codec`] maps native column values to generic values and back;
//! - [`descriptor`] builds the per-request column descriptor;
//! - [`protocol`] defines the four request shapes and row encoding;
//! - [`client`] consumes a response stream: row collection, draining, and the
//!   pull-based cursor, with the protocol checks;
//! - [`adapter`] is the engine-facing side: request building and row decoding;
//! - [`server`] is a small in-memory row server that echoes its rows.
//!
//! Network transport itself (connections, the asynchronous runtime, wire
//! framing) lives outside this crate; everything here is plain data and total
//! logic over it.

pub mod adapter;
pub mod client;
pub mod codec;
pub mod descriptor;
pub mod protocol;
pub mod server;
pub mod value;
