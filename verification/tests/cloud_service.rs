use celer::cloud::handlers::{
    admit_compile, artifact_read_failed, body_read_failed, check_body_size, default_module_name, finish_compile,
    handle_download, handle_health, handle_status, is_valid_module_name, not_found, Admission, ApiResponse,
    CompileOutcome, CompileRequest, Download, ResponseBody,
};
use celer::cloud::server::{cleanup_interval_secs, route, Route};
use celer::cloud::{CloudConfig, CloudError, CloudServer, Job, JobStatus, JobStore};

fn job(id: &str, created_at: u64) -> Job {
    Job {
        id: id.into(),
        module_name: "m".into(),
        status: JobStatus::Pending,
        created_at,
        compile_time_ms: None,
        artifact_path: None,
        error: None,
    }
}

fn error_of(r: &ApiResponse) -> (u16, String) {
    match &r.body {
        ResponseBody::Error(m) => (r.status, m.clone()),
        other => panic!("not an error: {other:?}"),
    }
}

#[test]
fn config_defaults() {
    let c = CloudConfig::default();
    assert_eq!(c.host, "0.0.0.0");
    assert_eq!(c.port, 9000);
    assert_eq!(c.max_source_bytes, 1_048_576);
    assert_eq!(c.compile_timeout_secs, 30);
    assert_eq!(c.job_ttl_secs, 3600);
}

#[test]
fn error_messages() {
    assert_eq!(CloudError::SourceTooLarge { size: 10, max: 5 }.message(), "source too large: 10 bytes (max: 5)");
    assert_eq!(CloudError::Timeout(30).message(), "compilation timed out after 30 seconds");
    assert_eq!(CloudError::JobNotFound("x".into()).message(), "job not found: x");
    assert_eq!(CloudError::JobNotComplete.message(), "job not complete");
    assert_eq!(CloudError::Io("disk".into()).message(), "IO error: disk");
}

#[test]
fn store_read_after_write() {
    let mut store = JobStore::new(10);
    store.insert(job("a", 0));
    store.insert(job("b", 5));
    assert_eq!(store.get("a").unwrap().created_at, 0);
    assert!(store.get("zzz").is_none());
    store.update_status("a", JobStatus::Compiling);
    assert_eq!(store.get("a").unwrap().status, JobStatus::Compiling);
    store.mark_complete("a", "/tmp/a.so".into(), 12);
    let a = store.get("a").unwrap();
    assert_eq!(a.status, JobStatus::Complete);
    assert_eq!(a.artifact_path, Some("/tmp/a.so".to_string()));
    assert_eq!(a.compile_time_ms, Some(12));
    store.mark_failed("b", "boom".into());
    assert_eq!(store.get("b").unwrap().error, Some("boom".to_string()));
    store.mark_failed("missing", "x".into());
    assert!(store.get("missing").is_none());
}

#[test]
fn cleanup_removes_only_expired_jobs() {
    let mut store = JobStore::new(1);
    let mut old = job("old", 0);
    old.artifact_path = Some("/tmp/old.so".into());
    store.insert(old);
    store.insert(job("edge", 1_000_000_000));
    store.insert(job("new", 1_500_000_000));
    let (count, artifacts) = store.cleanup_expired(2_000_000_000);
    assert_eq!(count, 1);
    assert_eq!(artifacts, vec!["/tmp/old.so"]);
    assert!(store.get("old").is_none());
    assert!(store.get("edge").is_some());
    assert!(store.get("new").is_some());
    let (count, _) = store.cleanup_expired(0);
    assert_eq!(count, 0);
}

#[test]
fn module_names() {
    assert!(is_valid_module_name("my_mod2"));
    assert!(is_valid_module_name("é"));
    assert!(!is_valid_module_name(""));
    assert!(!is_valid_module_name("a-b"));
    assert!(!is_valid_module_name("../x"));
    assert_eq!(default_module_name(), "module");
}

#[test]
fn compile_admission() {
    let mut store = JobStore::new(60);
    match admit_compile(&mut store, Err("expected value".into()), 7) {
        Admission::Rejected(r) => assert_eq!(error_of(&r), (400, "invalid request: expected value".to_string())),
        _ => panic!("should be rejected"),
    }
    let bad = CompileRequest { source: "x = 1".into(), module_name: "bad name".into() };
    match admit_compile(&mut store, Ok(bad), 7) {
        Admission::Rejected(r) => assert_eq!(
            error_of(&r),
            (400, "invalid module name: must be non-empty alphanumeric with underscores".to_string())
        ),
        _ => panic!("should be rejected"),
    }
    let good = CompileRequest { source: "def f() -> int:\n    return 1\n".into(), module_name: "mod".into() };
    match admit_compile(&mut store, Ok(good), 7) {
        Admission::Accepted { job_id, module_name, source, response } => {
            assert_eq!(job_id.len(), 36);
            assert_eq!(job_id.as_bytes()[14], b'4');
            assert_eq!(module_name, "mod");
            assert!(source.starts_with("def f"));
            assert_eq!(response, ApiResponse { status: 202, body: ResponseBody::Accepted { job_id: job_id.clone() } });
            let stored = store.get(&job_id).unwrap();
            assert_eq!(stored.status, JobStatus::Pending);
            assert_eq!(stored.created_at, 7);
            finish_compile(&mut store, &job_id, CompileOutcome::TimedOut, 30);
            assert_eq!(store.get(&job_id).unwrap().error, Some("compilation timed out after 30s".to_string()));
            finish_compile(&mut store, &job_id, CompileOutcome::Panicked("oops".into()), 30);
            assert_eq!(store.get(&job_id).unwrap().error, Some("task panic: oops".to_string()));
            finish_compile(&mut store, &job_id, CompileOutcome::Built { artifact_path: "/t/mod.so".into(), compile_time_ms: 3 }, 30);
            assert_eq!(store.get(&job_id).unwrap().status, JobStatus::Complete);
        },
        _ => panic!("should be accepted"),
    }
}

#[test]
fn body_size_limit() {
    let mut c = CloudConfig::default();
    c.max_source_bytes = 4;
    assert!(check_body_size(&c, 4).is_none());
    let r = check_body_size(&c, 5).unwrap();
    assert_eq!(error_of(&r), (413, "source too large: 5 bytes (max: 4)".to_string()));
}

#[test]
fn status_and_download_answers() {
    let mut store = JobStore::new(60);
    let r = handle_status(&store, "nope");
    assert_eq!(error_of(&r), (404, "job not found: nope".to_string()));
    store.insert(job("j", 0));
    let r = handle_status(&store, "j");
    assert_eq!(r.status, 200);
    match &r.body {
        ResponseBody::Status { job_id, status, module_name, compile_time_ms, error } => {
            assert_eq!(job_id, "j");
            assert_eq!(*status, JobStatus::Pending);
            assert_eq!(module_name, "m");
            assert_eq!(*compile_time_ms, None);
            assert_eq!(*error, None);
        },
        other => panic!("unexpected {other:?}"),
    }
    match handle_download(&store, "j", "so") {
        Download::Reply(r) => assert_eq!(error_of(&r), (409, "job not complete".to_string())),
        _ => panic!("not complete"),
    }
    store.update_status("j", JobStatus::Complete);
    match handle_download(&store, "j", "so") {
        Download::Reply(r) => assert_eq!(error_of(&r), (500, "artifact path missing".to_string())),
        _ => panic!("no artifact"),
    }
    store.mark_complete("j", "/tmp/j.so".into(), 1);
    match handle_download(&store, "j", "so") {
        Download::Send { path, filename } => {
            assert_eq!(path, "/tmp/j.so");
            assert_eq!(filename, "m.so");
        },
        _ => panic!("should send"),
    }
    match handle_download(&store, "x", "so") {
        Download::Reply(r) => assert_eq!(error_of(&r), (404, "job not found: x".to_string())),
        _ => panic!("unknown"),
    }
}

#[test]
fn routing() {
    assert_eq!(route("GET", "/health"), Route::Health);
    assert_eq!(route("POST", "/health"), Route::NotFound);
    assert_eq!(route("POST", "/compile"), Route::Compile);
    assert_eq!(route("GET", "/compile"), Route::NotFound);
    assert_eq!(route("DELETE", "/status/abc"), Route::Status("abc".into()));
    assert_eq!(route("GET", "/download/"), Route::Download("".into()));
    assert_eq!(route("GET", "/"), Route::NotFound);
    assert_eq!(handle_health(), ApiResponse { status: 200, body: ResponseBody::Health });
    assert_eq!(error_of(&not_found()), (404, "not found".to_string()));
    assert_eq!(error_of(&body_read_failed("eof")), (400, "failed to read body: eof".to_string()));
    assert_eq!(error_of(&artifact_read_failed("gone")), (500, "failed to read artifact: gone".to_string()));
}

#[test]
fn server_setup() {
    assert_eq!(cleanup_interval_secs(3600), 900);
    assert_eq!(cleanup_interval_secs(100), 60);
    assert_eq!(cleanup_interval_secs(0), 60);
    let server = CloudServer::new(CloudConfig::default());
    let (config, store) = server.into_parts();
    assert_eq!(config.port, 9000);
    assert!(store.get("any").is_none());
    assert_eq!(JobStatus::Compiling.as_str(), "compiling");
}
