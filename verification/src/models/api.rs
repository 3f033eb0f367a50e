//! Bodies of the question endpoint.

use vstd::prelude::*;

verus! {

/// Body of a request to the question endpoint.
#[derive(Debug)]
pub struct AskRequest {
    pub question: String,
}

/// Body of a successful reply: the answer, and the provider's payload when
/// there is one.
#[derive(Debug)]
pub struct AskResponse {
    pub response: String,
    pub raw: Option<serde_json::Value>,
}

} // verus!
