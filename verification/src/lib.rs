//! Sans-I/O engine of a language-server client: message framing, request
//! correlation, notification caches and the readiness retry policy.

pub mod bytes;
pub mod client;
pub mod config;
pub mod diagnostics;
pub mod documents;
pub mod error;
pub mod ipc;
pub mod json;
pub mod lsp;
pub mod message;
pub mod notice;
pub mod ports;
pub mod progress;
pub mod protocol;
pub mod registry;
pub mod retry;
pub mod router;
pub mod run;
pub mod server;
pub mod simplify;
pub mod text;
pub mod tools;
pub mod transport;
pub mod workspace;
