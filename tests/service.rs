use code_translate_service::config::{parse_port, ConfigError, ServerConfig, DEFAULT_PORT};
use code_translate_service::handler::{begin, finish, Step};
use code_translate_service::pool::WorkerPool;
use code_translate_service::reply::{Reply, ReplyBody, TranslationOutcome};
use code_translate_service::request::{FieldValue, RequestBody, RequestError, TranslationJob};

fn object(source_code: FieldValue, target_language: FieldValue) -> RequestBody {
    RequestBody::Object { source_code, target_language }
}

fn text(s: &str) -> FieldValue {
    FieldValue::Text(s.to_string())
}

fn dispatched(step: Step) -> TranslationJob {
    match step {
        Step::Dispatch(job) => job,
        Step::Respond(reply) => panic!("expected a job, got {:?}", reply),
    }
}

fn responded(step: Step) -> Reply {
    match step {
        Step::Respond(reply) => reply,
        Step::Dispatch(job) => panic!("expected a reply, got {:?}", job),
    }
}

fn error_text(reply: &Reply) -> String {
    match &reply.body {
        ReplyBody::Error { error } => error.clone(),
        ReplyBody::Translated { translated_code } => panic!("expected an error, got {}", translated_code),
    }
}

fn translated_text(reply: &Reply) -> String {
    match &reply.body {
        ReplyBody::Translated { translated_code } => translated_code.clone(),
        ReplyBody::Error { error } => panic!("expected a translation, got {}", error),
    }
}

/// Stands in for the engine: upper-cases the code and names the target.
fn stub_engine(job: &TranslationJob) -> TranslationOutcome {
    TranslationOutcome::Translated(format!("{} [{}]", job.source_code.to_uppercase(), job.target_language))
}

#[test]
fn port_parses_plain_decimal() {
    assert_eq!(parse_port("3030"), Some(3030));
    assert_eq!(parse_port("0"), Some(0));
    assert_eq!(parse_port("65535"), Some(65535));
    assert_eq!(parse_port("08080"), Some(8080));
    assert_eq!(parse_port("+80"), Some(80));
}

#[test]
fn port_rejects_other_text() {
    assert_eq!(parse_port(""), None);
    assert_eq!(parse_port("+"), None);
    assert_eq!(parse_port("-1"), None);
    assert_eq!(parse_port("65536"), None);
    assert_eq!(parse_port("9999999999999"), None);
    assert_eq!(parse_port("80a"), None);
    assert_eq!(parse_port(" 80"), None);
    assert_eq!(parse_port("++80"), None);
}

#[test]
fn config_defaults_when_port_unset() {
    assert_eq!(ServerConfig::from_port_setting(None), Ok(ServerConfig { port: 3030 }));
    assert_eq!(DEFAULT_PORT, 3030);
    assert_eq!(ServerConfig { port: 1 }.host(), "127.0.0.1");
}

#[test]
fn config_reads_port_setting() {
    assert_eq!(ServerConfig::from_port_setting(Some("8080")), Ok(ServerConfig { port: 8080 }));
}

#[test]
fn config_fails_on_bad_port() {
    let r = ServerConfig::from_port_setting(Some("eighty"));
    assert_eq!(r, Err(ConfigError::InvalidPort));
    assert_eq!(ConfigError::InvalidPort.message(), "PORT must be a number");
}

#[test]
fn pool_admits_up_to_capacity() {
    let mut pool = WorkerPool::new(2);
    assert_eq!(pool.capacity(), 2);
    assert!(pool.try_acquire());
    assert!(pool.try_acquire());
    assert!(!pool.try_acquire());
    assert_eq!(pool.busy(), 2);
    pool.release();
    assert_eq!(pool.busy(), 1);
    assert!(pool.try_acquire());
    pool.release();
    pool.release();
    pool.release();
    assert_eq!(pool.busy(), 0);
}

#[test]
fn zero_capacity_pool_admits_nothing() {
    let mut pool = WorkerPool::new(0);
    assert!(!pool.try_acquire());
    assert_eq!(pool.busy(), 0);
}

#[test]
fn scenario_stub_engine_uppercases() {
    let mut pool = WorkerPool::new(4);
    let job = dispatched(begin(&mut pool, object(text("print('hi')"), text("Go"))));
    assert_eq!(job.source_code, "print('hi')");
    assert_eq!(job.target_language, "Go");
    let reply = finish(&mut pool, stub_engine(&job));
    assert_eq!(reply.status, 200);
    assert_eq!(translated_text(&reply), "PRINT('HI') [Go]");
    assert_eq!(pool.busy(), 0);
}

#[test]
fn success_text_is_passed_through_unchanged() {
    let mut pool = WorkerPool::new(1);
    let _job = dispatched(begin(&mut pool, object(text("x = 1"), text("Rust"))));
    let engine_text = "  let x = 1;\n\t// é ✓ \"quoted\"\n".to_string();
    let reply = finish(&mut pool, TranslationOutcome::Translated(engine_text.clone()));
    assert_eq!(reply.status, 200);
    assert_eq!(translated_text(&reply), engine_text);
}

#[test]
fn absent_target_defaults_to_java() {
    let mut pool = WorkerPool::new(1);
    let job = dispatched(begin(&mut pool, object(text("print(1)"), FieldValue::Absent)));
    assert_eq!(job.target_language, "Java");
    assert_eq!(job.source_code, "print(1)");
}

#[test]
fn null_target_defaults_to_java() {
    let mut pool = WorkerPool::new(1);
    let job = dispatched(begin(&mut pool, object(text("print(1)"), FieldValue::Null)));
    assert_eq!(job.target_language, "Java");
}

#[test]
fn distinct_requests_get_their_own_replies() {
    let mut pool = WorkerPool::new(64);
    let mut jobs = Vec::new();
    for i in 0..50 {
        let source = format!("code {}", i);
        jobs.push(dispatched(begin(&mut pool, object(FieldValue::Text(source), text("Go")))));
    }
    assert_eq!(pool.busy(), 50);
    for (i, job) in jobs.iter().enumerate().rev() {
        let reply = finish(&mut pool, stub_engine(job));
        assert_eq!(translated_text(&reply), format!("CODE {} [Go]", i));
    }
    assert_eq!(pool.busy(), 0);
}

#[test]
fn engine_error_message_is_the_error_body() {
    let mut pool = WorkerPool::new(1);
    let _job = dispatched(begin(&mut pool, object(text("x"), text("Cobol"))));
    let reply = finish(&mut pool, TranslationOutcome::EngineFailed("unsupported".to_string()));
    assert_eq!(reply.status, 500);
    assert_eq!(error_text(&reply), "unsupported");
    assert_eq!(pool.busy(), 0);
}

#[test]
fn offload_failure_has_server_error_prefix() {
    let mut pool = WorkerPool::new(1);
    let _job = dispatched(begin(&mut pool, object(text("x"), FieldValue::Absent)));
    let details = "Blocking thread pool is shut down unexpectedly".to_string();
    let reply = finish(&mut pool, TranslationOutcome::OffloadFailed(details));
    assert_eq!(reply.status, 500);
    assert_eq!(error_text(&reply), "Server error: Blocking thread pool is shut down unexpectedly");
}

#[test]
fn missing_source_is_rejected_without_a_job() {
    let mut pool = WorkerPool::new(1);
    let reply = responded(begin(&mut pool, object(FieldValue::Absent, text("Go"))));
    assert_eq!(reply.status, 400);
    assert_eq!(error_text(&reply), "Invalid request body: missing field `source_code`");
    assert_eq!(pool.busy(), 0);
}

#[test]
fn null_source_is_rejected() {
    let mut pool = WorkerPool::new(1);
    let reply = responded(begin(&mut pool, object(FieldValue::Null, FieldValue::Absent)));
    assert_eq!(reply.status, 400);
    assert_eq!(pool.busy(), 0);
}

#[test]
fn non_text_source_is_rejected() {
    let mut pool = WorkerPool::new(1);
    let reply = responded(begin(&mut pool, object(FieldValue::Other, text("Go"))));
    assert_eq!(reply.status, 400);
    assert_eq!(error_text(&reply), "Invalid request body: `source_code` must be a string");
}

#[test]
fn non_text_target_is_rejected() {
    let mut pool = WorkerPool::new(1);
    let reply = responded(begin(&mut pool, object(text("x"), FieldValue::Other)));
    assert_eq!(reply.status, 400);
    assert_eq!(error_text(&reply), "Invalid request body: `target_language` must be a string");
    assert_eq!(pool.busy(), 0);
}

#[test]
fn unreadable_body_is_rejected() {
    let mut pool = WorkerPool::new(1);
    let reply = responded(begin(&mut pool, RequestBody::Unreadable("EOF while parsing".to_string())));
    assert_eq!(reply.status, 400);
    assert_eq!(error_text(&reply), "Invalid request body: EOF while parsing");
}

#[test]
fn non_object_body_is_rejected() {
    let mut pool = WorkerPool::new(1);
    let reply = responded(begin(&mut pool, RequestBody::NotAnObject));
    assert_eq!(reply.status, 400);
    assert_eq!(error_text(&reply), "Invalid request body: expected a JSON object");
}

#[test]
fn request_error_messages() {
    let reply = Reply::for_request_error(&RequestError::MissingSourceCode);
    assert_eq!(reply.status, 400);
    assert_eq!(RequestError::NotAnObject.message(), "Invalid request body: expected a JSON object");
}

#[test]
fn saturated_pool_fails_fast() {
    let mut pool = WorkerPool::new(2);
    let _a = dispatched(begin(&mut pool, object(text("a"), FieldValue::Absent)));
    let _b = dispatched(begin(&mut pool, object(text("b"), FieldValue::Absent)));
    let reply = responded(begin(&mut pool, object(text("c"), FieldValue::Absent)));
    assert_eq!(reply.status, 500);
    assert_eq!(error_text(&reply), "Server error: worker pool is saturated");
    assert_eq!(pool.busy(), 2);
    let _done = finish(&mut pool, TranslationOutcome::Translated("A".to_string()));
    let _c = dispatched(begin(&mut pool, object(text("c"), FieldValue::Absent)));
    assert_eq!(pool.busy(), 2);
}
