//! Verified decisions of a bridge between a Python host and provider calls made in Rust.
//!
//! The crate holds what the bridge decides: how errors are described and classified, how
//! arguments coming from the host are validated, how a call is prepared, and how the outcome of
//! each piece of I/O is turned into the next step or into the result that the host sees. The I/O
//! itself is performed by the extension module built around this library.

pub mod chat_completions;
pub mod error;
pub mod exceptions;
pub mod http_stream;
pub mod http_utils;
pub mod json;
pub mod marshal;
pub mod outside;
pub mod responses_websocket;
pub mod runtime;
pub mod text;

pub use error::{Error, ProviderCallError, ProviderCallResult, SendError};
pub use exceptions::{BridgeError, BridgeResult, PyException};
pub use json::{json_type_name, JsonObject, Number, Value};
