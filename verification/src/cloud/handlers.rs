//! How the service answers each request: the status and the content of every response, and
//! what each request does to the job store.

use vstd::prelude::*;

use super::config::CloudConfig;
use super::job::{completed, failed, update_at, with_status, Job, JobStatus, JobStore};
use crate::text::{decimal_digits, string_from, u64_digits};

verus! {

broadcast use vstd::string::group_string_axioms;

/// A request to compile a module.
#[derive(Debug)]
pub struct CompileRequest {
    pub source: String,
    pub module_name: String,
}

/// The module name of a request that gives none.
pub fn default_module_name() -> (r: String)
    ensures
        r@ == "module"@,
{
    "module".to_string()
}

/// The result of `char::is_alphanumeric`: Unicode's alphabetic or numeric characters.
pub uninterp spec fn alphanumeric(c: char) -> bool;

/// Calls `char::is_alphanumeric`. Among ASCII characters exactly the letters and digits are
/// alphanumeric; for other characters the result is `alphanumeric`, which follows Unicode's
/// tables.
#[verifier::external_body]
fn char_is_alphanumeric(c: char) -> (r: bool)
    ensures
        r == alphanumeric(c),
        ('a' <= c <= 'z' || 'A' <= c <= 'Z' || '0' <= c <= '9') ==> r,
        (c as u32) < 128 && !('a' <= c <= 'z' || 'A' <= c <= 'Z' || '0' <= c <= '9') ==> !r,
{
    c.is_alphanumeric()
}

/// A module name the service accepts: not empty, and only alphanumeric characters and `_`.
pub open spec fn valid_module_name(name: Seq<char>) -> bool {
    name.len() > 0 && forall|i: int| 0 <= i < name.len() ==> alphanumeric(#[trigger] name[i]) || name[i] == '_'
}

/// A character that may stand in an accepted module name: an ASCII letter, digit or `_`, or a
/// character outside ASCII.
pub open spec fn name_char(c: char) -> bool {
    (c as u32) >= 128 || 'a' <= c <= 'z' || 'A' <= c <= 'Z' || '0' <= c <= '9' || c == '_'
}

/// Whether the service accepts a module name. An accepted name holds no ASCII punctuation
/// but `_`, so no path separator and no `.`: it names a file inside the job's directory.
pub fn is_valid_module_name(name: &str) -> (r: bool)
    ensures
        r == valid_module_name(name@),
        r ==> forall|i: int| 0 <= i < name@.len() ==> name_char(#[trigger] name@[i]),
{
    let v = crate::text::chars_of(name);
    if v.len() == 0 {
        return false;
    }
    let mut i: usize = 0;
    while i < v.len()
        invariant
            v@ == name@,
            i <= v@.len(),
            forall|j: int| 0 <= j < i ==> alphanumeric(#[trigger] v@[j]) || v@[j] == '_',
            forall|j: int| 0 <= j < i ==> name_char(#[trigger] v@[j]),
        decreases v@.len() - i,
    {
        if !(char_is_alphanumeric(v[i]) || v[i] == '_') {
            return false;
        }
        i = i + 1;
    }
    true
}

/// A lower-case hexadecimal digit.
pub open spec fn is_hex_digit(c: char) -> bool {
    '0' <= c <= '9' || 'a' <= c <= 'f'
}

/// The hyphenated text of a UUID: 36 characters, hyphens at 8, 13, 18 and 23, lower-case
/// hexadecimal digits elsewhere.
pub open spec fn hyphenated_uuid(s: Seq<char>) -> bool {
    &&& s.len() == 36
    &&& forall|i: int| 0 <= i < 36 ==> if i == 8 || i == 13 || i == 18 || i == 23 {
        s[i] == '-'
    } else {
        is_hex_digit(#[trigger] s[i])
    }
}

/// Calls `uuid::Uuid::new_v4` and formats the UUID with `to_string`: a random id, written in
/// the hyphenated lower-case form.
#[verifier::external_body]
fn new_job_id() -> (r: String)
    ensures
        hyphenated_uuid(r@),
{
    uuid::Uuid::new_v4().to_string()
}

/// The content of a response, which is sent as a JSON object.
#[derive(Debug, PartialEq)]
pub enum ResponseBody {
    /// `{"error": message}`.
    Error(String),
    /// `{"service": "celer-cloud", "status": "ok"}`.
    Health,
    /// `{"job_id": id, "status": "pending"}`.
    Accepted { job_id: String },
    /// A job's id, status and module, with its compilation time and error when it has them.
    Status {
        job_id: String,
        status: JobStatus,
        module_name: String,
        compile_time_ms: Option<u64>,
        error: Option<String>,
    },
}

/// A response: an HTTP status code and its content.
#[derive(Debug, PartialEq)]
pub struct ApiResponse {
    pub status: u16,
    pub body: ResponseBody,
}

/// `r` has status `status` and the error `message`.
pub open spec fn is_error(r: ApiResponse, status: u16, message: Seq<char>) -> bool {
    r.status == status && (r.body matches ResponseBody::Error(m) && m@ == message)
}

/// An error response.
fn error_response(status: u16, message: String) -> (r: ApiResponse)
    ensures
        is_error(r, status, message@),
{
    ApiResponse { status, body: ResponseBody::Error(message) }
}

/// The health report.
pub fn handle_health() -> (r: ApiResponse)
    ensures
        r == (ApiResponse { status: 200, body: ResponseBody::Health }),
{
    ApiResponse { status: 200, body: ResponseBody::Health }
}

/// The answer when a request body cannot be read.
pub fn body_read_failed(reason: &str) -> (r: ApiResponse)
    ensures
        is_error(r, 400, "failed to read body: "@ + reason@),
{
    let mut m = "failed to read body: ".to_string();
    m.append(reason);
    error_response(400, m)
}

/// The answer when an artifact cannot be read.
pub fn artifact_read_failed(reason: &str) -> (r: ApiResponse)
    ensures
        is_error(r, 500, "failed to read artifact: "@ + reason@),
{
    let mut m = "failed to read artifact: ".to_string();
    m.append(reason);
    error_response(500, m)
}

/// The answer to a request to route nowhere.
pub fn not_found() -> (r: ApiResponse)
    ensures
        is_error(r, 404, "not found"@),
{
    proof { reveal_strlit("not found"); }
    error_response(404, "not found".to_string())
}

/// The message for a body of `size` bytes over the limit `max`.
pub open spec fn too_large_text(size: usize, max: usize) -> Seq<char> {
    "source too large: "@ + decimal_digits(size as nat) + " bytes (max: "@ + decimal_digits(max as nat) + ")"@
}

/// Refuses a compile request whose body has more bytes than the configured maximum.
pub fn check_body_size(config: &CloudConfig, body_len: usize) -> (r: Option<ApiResponse>)
    ensures
        body_len > config.max_source_bytes ==> (r matches Option::Some(resp) && is_error(
            resp,
            413,
            too_large_text(body_len, config.max_source_bytes),
        )),
        body_len <= config.max_source_bytes ==> r is None,
{
    if body_len > config.max_source_bytes {
        let mut m = "source too large: ".to_string();
        m.append(string_from(u64_digits(body_len as u64).as_slice()).as_str());
        m.append(" bytes (max: ");
        m.append(string_from(u64_digits(config.max_source_bytes as u64).as_slice()).as_str());
        m.append(")");
        Some(error_response(413, m))
    } else {
        None
    }
}

/// What the service does with a compile request.
#[derive(Debug)]
pub enum Admission {
    /// The request is refused with this response.
    Rejected(ApiResponse),
    /// A pending job was stored; its module is compiled in the background, and the response
    /// is sent at once.
    Accepted { job_id: String, module_name: String, source: String, response: ApiResponse },
}

/// The message for a module name that is refused.
pub open spec fn bad_name_text() -> Seq<char> {
    "invalid module name: must be non-empty alphanumeric with underscores"@
}

/// Admits a parsed compile request (or the reason it could not be parsed): an unparsable
/// request or a bad module name is refused; otherwise a pending job with a fresh id, created
/// at `now`, is stored.
pub fn admit_compile(store: &mut JobStore, request: Result<CompileRequest, String>, now: u64) -> (r: Admission)
    ensures
        final(store).ttl() == old(store).ttl(),
        match request {
            Err(e) => r matches Admission::Rejected(resp) && is_error(resp, 400, "invalid request: "@ + e@)
                && final(store).jobs() == old(store).jobs(),
            Ok(req) => if !valid_module_name(req.module_name@) {
                r matches Admission::Rejected(resp) && is_error(resp, 400, bad_name_text()) && final(store).jobs()
                    == old(store).jobs()
            } else {
                r matches Admission::Accepted { job_id, module_name, source, response } && hyphenated_uuid(job_id@)
                    && module_name == req.module_name && source == req.source && response == (ApiResponse {
                    status: 202,
                    body: ResponseBody::Accepted { job_id },
                }) && final(store).jobs() == old(store).jobs().insert(
                    job_id@,
                    Job {
                        id: job_id,
                        module_name: req.module_name,
                        status: JobStatus::Pending,
                        created_at: now,
                        compile_time_ms: Option::None,
                        artifact_path: Option::None,
                        error: Option::None,
                    },
                )
            },
        },
{
    let req = match request {
        Ok(req) => req,
        Err(e) => {
            let mut m = "invalid request: ".to_string();
            m.append(e.as_str());
            return Admission::Rejected(error_response(400, m));
        },
    };
    if !is_valid_module_name(req.module_name.as_str()) {
        proof { reveal_strlit("invalid module name: must be non-empty alphanumeric with underscores"); }
        return Admission::Rejected(
            error_response(400, "invalid module name: must be non-empty alphanumeric with underscores".to_string()),
        );
    }
    let job_id = new_job_id();
    let job = Job {
        id: job_id.clone(),
        module_name: req.module_name.clone(),
        status: JobStatus::Pending,
        created_at: now,
        compile_time_ms: None,
        artifact_path: None,
        error: None,
    };
    store.insert(job);
    let response = ApiResponse { status: 202, body: ResponseBody::Accepted { job_id: job_id.clone() } };
    Admission::Accepted { job_id, module_name: req.module_name, source: req.source, response }
}

/// How a background compilation ended.
#[derive(Debug)]
pub enum CompileOutcome {
    /// The shared library was built.
    Built { artifact_path: String, compile_time_ms: u64 },
    /// The pipeline failed with this message.
    Failed(String),
    /// The compilation task panicked with this message.
    Panicked(String),
    /// The compilation did not finish within the timeout.
    TimedOut,
}

/// The error recorded for a failed outcome.
pub open spec fn outcome_error(outcome: CompileOutcome, timeout_secs: u64) -> Seq<char> {
    match outcome {
        CompileOutcome::Failed(m) => m@,
        CompileOutcome::Panicked(m) => "task panic: "@ + m@,
        _ => "compilation timed out after "@ + decimal_digits(timeout_secs as nat) + "s"@,
    }
}

/// Records how the background compilation of a job ended: complete with its artifact, or
/// failed with the reason.
pub fn finish_compile(store: &mut JobStore, job_id: &str, outcome: CompileOutcome, timeout_secs: u64)
    ensures
        final(store).ttl() == old(store).ttl(),
        match outcome {
            CompileOutcome::Built { artifact_path, compile_time_ms } => final(store).jobs() == update_at(
                old(store).jobs(),
                job_id@,
                completed(old(store).jobs()[job_id@], artifact_path, compile_time_ms),
            ),
            _ => exists|e: String|
                e@ == outcome_error(outcome, timeout_secs) && final(store).jobs() == update_at(
                    old(store).jobs(),
                    job_id@,
                    #[trigger] failed(old(store).jobs()[job_id@], e),
                ),
        },
{
    match outcome {
        CompileOutcome::Built { artifact_path, compile_time_ms } => {
            store.mark_complete(job_id, artifact_path, compile_time_ms);
        },
        CompileOutcome::Failed(m) => {
            store.mark_failed(job_id, m);
        },
        CompileOutcome::Panicked(m) => {
            let mut e = "task panic: ".to_string();
            e.append(m.as_str());
            store.mark_failed(job_id, e);
        },
        CompileOutcome::TimedOut => {
            let mut e = "compilation timed out after ".to_string();
            e.append(string_from(u64_digits(timeout_secs).as_slice()).as_str());
            e.append("s");
            store.mark_failed(job_id, e);
        },
    }
}

/// The status of a job: its id, status and module, with its compilation time and error when
/// it has them; 404 for an unknown id.
pub fn handle_status(store: &JobStore, job_id: &str) -> (r: ApiResponse)
    ensures
        store.jobs().contains_key(job_id@) ==> {
            let job = store.jobs()[job_id@];
            r == ApiResponse {
                status: 200,
                body: ResponseBody::Status {
                    job_id: job.id,
                    status: job.status,
                    module_name: job.module_name,
                    compile_time_ms: job.compile_time_ms,
                    error: job.error,
                },
            }
        },
        !store.jobs().contains_key(job_id@) ==> is_error(r, 404, "job not found: "@ + job_id@),
{
    match store.get(job_id) {
        Some(job) => ApiResponse {
            status: 200,
            body: ResponseBody::Status {
                job_id: job.id,
                status: job.status,
                module_name: job.module_name,
                compile_time_ms: job.compile_time_ms,
                error: job.error,
            },
        },
        None => {
            let mut m = "job not found: ".to_string();
            m.append(job_id);
            error_response(404, m)
        },
    }
}

/// What the service does with a download request.
#[derive(Debug)]
pub enum Download {
    /// Answer with this response.
    Reply(ApiResponse),
    /// Send the file at `path` as an attachment named `filename`.
    Send { path: String, filename: String },
}

/// The answer to a download request: the artifact of a complete job, named after its module
/// with the shared-library extension `lib_ext`; otherwise why it cannot be sent.
pub fn handle_download(store: &JobStore, job_id: &str, lib_ext: &str) -> (r: Download)
    ensures
        !store.jobs().contains_key(job_id@) ==> (r matches Download::Reply(resp) && is_error(
            resp,
            404,
            "job not found: "@ + job_id@,
        )),
        store.jobs().contains_key(job_id@) ==> {
            let job = store.jobs()[job_id@];
            if job.status != JobStatus::Complete {
                r matches Download::Reply(resp) && is_error(resp, 409, "job not complete"@)
            } else {
                match job.artifact_path {
                    Option::None => r matches Download::Reply(resp) && is_error(resp, 500, "artifact path missing"@),
                    Option::Some(p) => r matches Download::Send { path, filename } && path == p && filename@
                        == job.module_name@ + "."@ + lib_ext@,
                }
            }
        },
{
    match store.get(job_id) {
        Some(job) => {
            if job.status != JobStatus::Complete {
                proof { reveal_strlit("job not complete"); }
                return Download::Reply(error_response(409, "job not complete".to_string()));
            }
            match job.artifact_path {
                Some(path) => {
                    let mut filename = job.module_name.clone();
                    filename.append(".");
                    filename.append(lib_ext);
                    Download::Send { path, filename }
                },
                None => {
                    proof { reveal_strlit("artifact path missing"); }
                    Download::Reply(error_response(500, "artifact path missing".to_string()))
                },
            }
        },
        None => {
            let mut m = "job not found: ".to_string();
            m.append(job_id);
            Download::Reply(error_response(404, m))
        },
    }
}

} // verus!
