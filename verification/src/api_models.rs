use vstd::prelude::*;

verus! {

/// The body of an error reply.
pub struct ApiErrorResponse {
    pub status: String,
    pub error: String,
}

impl ApiErrorResponse {
    /// The reply that reports `message`: its status is the word `error`.
    pub fn new(message: String) -> (r: ApiErrorResponse)
        ensures
            r.status@ == "error"@,
            r.error@ == message@,
    {
        ApiErrorResponse { status: "error".to_owned(), error: message }
    }
}

} // verus!
