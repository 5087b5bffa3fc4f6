//! Routing of requests, and the service's state.

use vstd::prelude::*;

use super::config::CloudConfig;
use super::job::JobStore;
use crate::text::{chars_of, starts_with, str_equal, str_starts_with, string_of_range};

verus! {

broadcast use vstd::string::group_string_axioms;

/// Where a request goes.
#[derive(Debug, PartialEq, Eq)]
pub enum Route {
    Health,
    Compile,
    /// The status of the job with this id.
    Status(String),
    /// The artifact of the job with this id.
    Download(String),
    NotFound,
}

/// `r` is where a request with this method and path goes: `GET /health`, `POST /compile`,
/// then any method on `/status/<id>` and `/download/<id>`, and nowhere otherwise.
pub open spec fn routes_to(r: Route, method: Seq<char>, path: Seq<char>) -> bool {
    if method == "GET"@ && path == "/health"@ {
        r == Route::Health
    } else if method == "POST"@ && path == "/compile"@ {
        r == Route::Compile
    } else if starts_with(path, "/status/"@) {
        r matches Route::Status(id) && id@ == path.skip(8)
    } else if starts_with(path, "/download/"@) {
        r matches Route::Download(id) && id@ == path.skip(10)
    } else {
        r == Route::NotFound
    }
}

/// Routes a request by its method name and its path.
pub fn route(method: &str, path: &str) -> (r: Route)
    ensures
        routes_to(r, method@, path@),
{
    proof {
        reveal_strlit("GET");
        reveal_strlit("/health");
        reveal_strlit("POST");
        reveal_strlit("/compile");
        reveal_strlit("/status/");
        reveal_strlit("/download/");
    }
    if str_equal(method, "GET") && str_equal(path, "/health") {
        Route::Health
    } else if str_equal(method, "POST") && str_equal(path, "/compile") {
        Route::Compile
    } else if str_starts_with(path, "/status/") {
        let v = chars_of(path);
        Route::Status(string_of_range(v.as_slice(), 8, v.len()))
    } else if str_starts_with(path, "/download/") {
        let v = chars_of(path);
        Route::Download(string_of_range(v.as_slice(), 10, v.len()))
    } else {
        Route::NotFound
    }
}

/// How often expired jobs are removed: a quarter of the TTL, and at least once a minute's wait.
pub fn cleanup_interval_secs(ttl_secs: u64) -> (r: u64)
    ensures
        r == (if ttl_secs / 4 > 60 { ttl_secs / 4 } else { 60 }),
{
    let q = ttl_secs / 4;
    if q > 60 { q } else { 60 }
}

/// The compilation service: its settings and its jobs.
pub struct CloudServer {
    config: CloudConfig,
    store: JobStore,
}

impl CloudServer {
    /// The settings.
    pub closed spec fn settings(&self) -> CloudConfig {
        self.config
    }

    /// The jobs.
    pub closed spec fn jobs(&self) -> JobStore {
        self.store
    }

    /// A service with these settings and no jobs; jobs are kept for the configured TTL.
    pub fn new(config: CloudConfig) -> (s: CloudServer)
        ensures
            s.settings() == config,
            s.jobs().jobs() == Map::<Seq<char>, super::job::Job>::empty(),
            s.jobs().ttl() == config.job_ttl_secs,
    {
        let store = JobStore::new(config.job_ttl_secs);
        CloudServer { config, store }
    }

    /// The settings and the job store, for the server loop.
    pub fn into_parts(self) -> (r: (CloudConfig, JobStore))
        ensures
            r.0 == self.settings(),
            r.1 == self.jobs(),
    {
        (self.config, self.store)
    }
}

} // verus!
