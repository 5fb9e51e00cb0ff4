//! The protocol's fixed values.

use vstd::prelude::*;

verus! {

/// The protocol version that the server speaks and advertises.
pub const SUPPORTED_PROTOCOL_VERSION: &'static str = "2024-11-05";

/// The value of `jsonrpc` in every response.
pub const JSONRPC_VERSION: &'static str = "2.0";

/// The line was not JSON.
pub const PARSE_ERROR: i32 = -32700;

/// No handler is registered under the method's name.
pub const METHOD_NOT_FOUND: i32 = -32601;

/// The parameters are missing or do not have the method's shape.
pub const INVALID_PARAMS: i32 = -32602;

/// The handler itself failed.
pub const INTERNAL_ERROR: i32 = -32603;

} // verus!
