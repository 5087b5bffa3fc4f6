//! Failures of the cloud compilation service.

use vstd::prelude::*;

use crate::text::{decimal_digits, string_from, u64_digits};

verus! {

broadcast use vstd::string::group_string_axioms;

/// Failures of the cloud compilation service.
#[derive(Debug, PartialEq, Eq)]
pub enum CloudError {
    BindFailed(String),
    /// An I/O failure, by its message.
    Io(String),
    SourceTooLarge { size: usize, max: usize },
    CompilationFailed(String),
    Timeout(u64),
    JobNotFound(String),
    InvalidModuleName(String),
    JobNotComplete,
}

impl CloudError {
    /// The error's message.
    pub open spec fn text(self) -> Seq<char> {
        match self {
            CloudError::BindFailed(m) => "bind failed: "@ + m@,
            CloudError::Io(m) => "IO error: "@ + m@,
            CloudError::SourceTooLarge { size, max } => "source too large: "@ + decimal_digits(size as nat)
                + " bytes (max: "@ + decimal_digits(max as nat) + ")"@,
            CloudError::CompilationFailed(m) => "compilation failed: "@ + m@,
            CloudError::Timeout(s) => "compilation timed out after "@ + decimal_digits(s as nat) + " seconds"@,
            CloudError::JobNotFound(id) => "job not found: "@ + id@,
            CloudError::InvalidModuleName(m) => "invalid module name: "@ + m@,
            CloudError::JobNotComplete => "job not complete"@,
        }
    }

    /// The error's message.
    pub fn message(&self) -> (r: String)
        ensures
            r@ == self.text(),
    {
        match self {
            CloudError::BindFailed(m) => {
                let mut s = "bind failed: ".to_string();
                s.append(m.as_str());
                s
            },
            CloudError::Io(m) => {
                let mut s = "IO error: ".to_string();
                s.append(m.as_str());
                s
            },
            CloudError::SourceTooLarge { size, max } => {
                let mut s = "source too large: ".to_string();
                s.append(string_from(u64_digits(*size as u64).as_slice()).as_str());
                s.append(" bytes (max: ");
                s.append(string_from(u64_digits(*max as u64).as_slice()).as_str());
                s.append(")");
                s
            },
            CloudError::CompilationFailed(m) => {
                let mut s = "compilation failed: ".to_string();
                s.append(m.as_str());
                s
            },
            CloudError::Timeout(secs) => {
                let mut s = "compilation timed out after ".to_string();
                s.append(string_from(u64_digits(*secs).as_slice()).as_str());
                s.append(" seconds");
                s
            },
            CloudError::JobNotFound(id) => {
                let mut s = "job not found: ".to_string();
                s.append(id.as_str());
                s
            },
            CloudError::InvalidModuleName(m) => {
                let mut s = "invalid module name: ".to_string();
                s.append(m.as_str());
                s
            },
            CloudError::JobNotComplete => "job not complete".to_string(),
        }
    }
}

} // verus!
