//! Protocol core of a client for a remote memory and context store that is
//! reached over HTTP with JSON bodies.
//!
//! The crate performs no I/O. It describes the requests to send, classifies
//! the status of a response, and reassembles the records of a
//! newline-delimited answer from the chunks in which the transport delivers
//! them. Every function carries a contract that Verus proves.

pub mod client;
pub mod config;
pub mod error;
pub mod response;
pub mod status;
pub mod stream;
pub mod text;
pub mod types;

pub use client::{Header, Method, Request, UcpClient};
pub use config::UcpConfig;
pub use error::{UcpError, UcpErrorView};
pub use response::{handle_error_response, handle_response, parsed, ErrorBody, NextStep};
pub use status::HttpStatus;
pub use stream::{LineDecoder, StreamItem};
pub use types::{HealthStatus, ProjectStats};
