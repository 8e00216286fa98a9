//! The request engine of a tiny HTTP/1.0 server that answers from a document
//! root with files and CGI programs.
//!
//! - `line` frames bytes into CRLF-terminated lines of text.
//! - `request` holds the request model and its parsers.
//! - `dispatch` resolves targets, routes requests and builds the answers.
//! - `connection` strings these together into the state machine of one
//!   connection.
//! - `wire` proves that a request is read back as it was written.
//! - `tinylogger` builds the lines of the server's log.
//!
//! Everything here works on plain values. Sockets, files, child processes
//! and the process's logger belong to the caller.

pub mod connection;
pub mod dispatch;
pub mod error;
pub mod line;
pub mod request;
pub mod text;
pub mod tinylogger;
pub mod wire;
