use vstd::prelude::*;

verus! {

/// Failures of FastAPI route extraction.
#[derive(Debug, PartialEq, Eq)]
pub enum FastApiError {
    InvalidRoute(String),
    UnsupportedDecorator(String),
    MissingHandler { method: String, path: String },
}

} // verus!
