//! The closed error taxonomy.
//!
//! Every failure of this layer, from construction to parsing, is exactly
//! one of these kinds; no operation recovers or retries, and no caller
//! ever sees a partially-populated response.

use vstd::prelude::*;

verus! {

/// Every failure mode of the binding layer.
#[derive(Clone, Debug)]
pub enum OsrmError {
    /// Native handle construction returned null; the native side does not
    /// say why (bad data path, corrupt graph, wrong algorithm token).
    Initialization,
    /// The given path cannot be represented in the foreign-call string
    /// encoding; the payload is the offending path.
    InvalidPath(String),
    /// A business-level condition found after a structurally successful
    /// call, such as zero routes where one was expected.
    ApiError(String),
    /// A request collection that must be non-empty was empty; caught
    /// before any boundary call.
    InvalidTableArgument,
    /// The native payload could not be parsed into the expected shape;
    /// the payload describes the parse failure.
    JsonParse(String),
    /// The boundary call itself failed: a null buffer, or a non-success
    /// status code with the native-reported text.
    FfiError(String),
}

} // verus!
