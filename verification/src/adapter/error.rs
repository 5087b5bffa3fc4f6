use vstd::prelude::*;

verus! {

/// Failures of framework detection and route extraction.
#[derive(Debug, PartialEq, Eq)]
pub enum AdapterError {
    NoFrameworkDetected,
    ExtractionFailed(String),
    InvalidRoute(String),
}

} // verus!
