//! The errors the services report.
use vstd::prelude::*;
use crate::text::{from_chars, push_str};

verus! {

/// What went wrong while serving a request.
pub enum ServiceError {
    /// The request names a method the service does not have.
    ApiRouting(String),
    /// A parameter is missing or wrong.
    Validation(String),
    Database(String),
    StockData(String),
    LlmAnalysis(String),
    Internal(String),
}

/// The routing error `<prefix><method>`.
pub fn unsupported_method(prefix: &str, method: &str) -> (e: ServiceError)
    ensures
        e matches ServiceError::ApiRouting(msg) && msg@ == prefix@ + method@,
{
    let mut out: Vec<char> = Vec::new();
    push_str(&mut out, prefix);
    push_str(&mut out, method);
    ServiceError::ApiRouting(from_chars(&out))
}

} // verus!
