use vstd::prelude::*;

verus! {

/// Failures of Flask route extraction.
#[derive(Debug, PartialEq, Eq)]
pub enum FlaskError {
    InvalidRoute(String),
    UnsupportedDecorator(String),
    MissingHandler { method: String, path: String },
}

} // verus!
