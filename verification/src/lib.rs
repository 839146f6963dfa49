//! Verified core of a local proxy that bridges a browser WebSocket to a
//! CRLF-framed upstream stream while keeping credentials inside the process.

pub mod auth;
pub mod bridge;
pub mod codec;
pub mod config;
pub mod endpoint;
pub mod error;
pub mod forward;
pub mod identity;
pub mod json;
pub mod request;
pub mod rpc;
pub mod state;
pub mod stream;
pub mod text;
pub mod ui_error;
pub mod upstream;
