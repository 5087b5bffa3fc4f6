//! Settings of the cloud compilation service.

use vstd::prelude::*;

verus! {

broadcast use vstd::string::group_string_axioms;

/// Configuration for the cloud compilation service.
#[derive(Debug, Clone)]
pub struct CloudConfig {
    pub host: String,
    pub port: u16,
    /// Maximum source code size in bytes.
    pub max_source_bytes: usize,
    /// Compilation timeout in seconds.
    pub compile_timeout_secs: u64,
    /// Job time-to-live in seconds.
    pub job_ttl_secs: u64,
}

impl Default for CloudConfig {
    /// All interfaces on port 9000, sources up to 1 MiB, 30 seconds to compile, and jobs kept
    /// for an hour.
    fn default() -> (c: CloudConfig)
        ensures
            c.host@ == "0.0.0.0"@,
            c.port == 9000,
            c.max_source_bytes == 1_048_576,
            c.compile_timeout_secs == 30,
            c.job_ttl_secs == 3600,
    {
        CloudConfig {
            host: "0.0.0.0".to_string(),
            port: 9000,
            max_source_bytes: 1_048_576,
            compile_timeout_secs: 30,
            job_ttl_secs: 3600,
        }
    }
}

} // verus!
