use vstd::prelude::*;

verus! {

/// Failures of building the intermediate representation.
#[derive(Debug, PartialEq, Eq)]
pub enum HirError {
    UnsupportedSyntax(String),
    InvalidType(String),
    DuplicateDefinition(String),
}

} // verus!
