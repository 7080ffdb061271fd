use vstd::prelude::*;

verus! {

/// A request to create a flag.
pub struct CreateFlagRequest {
    pub key: String,
    pub name: String,
}

/// The decision of a flag for one request.
pub struct EvaluationResult {
    pub key: String,
    pub result: bool,
}

} // verus!
