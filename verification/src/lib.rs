//! Core of a catalog browser that talks to interchangeable backend processes
//! ("sources") over a framed request/response protocol on a local socket.
//!
//! The library holds the rules: how a message is framed and written as JSON,
//! when to try again to connect, how a source's process lives and ends, in
//! which order work is run, how a download resumes, what the MangaDex source
//! answers, and what the interface does with keys. Its functions are verified
//! with Verus against the contracts they carry. What is taken on trust is
//! marked as such where it stands: a few functions of `serde_json` in
//! [`json`], and three of the standard library in [`text`].
//!
//! Input and output (sockets, child processes, HTTP, files, the terminal)
//! are performed by the program around this library, which hands plain
//! values in and carries the decisions out.

pub mod framing;
pub mod json;
pub mod dto;
pub mod text;
pub mod paging;
pub mod wire;
pub mod transport;
pub mod supervisor;
pub mod download;
pub mod dispatcher;
pub mod client;
pub mod ui;
pub mod mangadex;
