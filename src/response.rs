use vstd::prelude::*;

verus! {

/// The body of an error response, shared by both error layers: the numeric
/// status, a stable category name and a detail text.
#[derive(Debug)]
pub struct ErrorResponse {
    pub code: u16,
    pub error_type: String,
    pub detailed_error: String,
}

/// The status sent for a resource that does not exist.
pub const NOT_FOUND: u16 = 404;

/// The status sent for a failure on the server's side.
pub const INTERNAL_SERVER_ERROR: u16 = 500;

} // verus!
