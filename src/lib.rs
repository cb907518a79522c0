//! A message-and-file transfer service.
//!
//! - `proto`: the wire envelope (an 8-byte big-endian length, then the body)
//!   and the request, streamed-frame and response vocabulary.
//! - `server`: one client's session and the decisions of each tick of its loop.
//! - `msg_exec`: what the server does with each request, and the records it
//!   hands to a persistence sink.
//! - `receive_file`: the streamed-upload receiver, with its running SHA-256 and
//!   size reconciliation.
//! - `hashing`: SHA-256 through the `sha2` crate.
//! - `client`: the client's command language and pre-send checks.
//! - `cmd`, `simple_ops`, `file_format_ops`: a small text tool (case changes,
//!   slugs, CSV tables).
//! - `text`: shared string helpers.
pub mod client;
pub mod cmd;
pub mod file_format_ops;
pub mod hashing;
pub mod msg_exec;
pub mod proto;
pub mod receive_file;
pub mod server;
pub mod simple_ops;
pub mod text;
