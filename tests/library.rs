use aca_jobs::client::{
    bearer_header, execution_status_url, token_scope, AzureAccessToken, AzureContainerAppClient,
};
use aca_jobs::error::{auth_failure, sentinel_error, transport_failure, AzureError, CallError, Error, ErrorDetail};
use aca_jobs::job::{EnvironmentVar, JobStartResponse};
use aca_jobs::poll::{exit_code, next_action, poll_step, PollAction, PollEvent, PollState, POLL_DELAY_SECS};
use aca_jobs::response::{classify_response, is_success_status, ResponseBody};
use aca_jobs::status::JobExecutionStatus;

fn sample_client() -> AzureContainerAppClient {
    AzureContainerAppClient::new(
        "cid".to_string(),
        "secret".to_string(),
        "tenant".to_string(),
        "sub-1".to_string(),
        "rg-1".to_string(),
    )
}

fn forbidden() -> AzureError {
    AzureError {
        error: Error {
            code: Some("Forbidden".to_string()),
            inner_error: None,
            message: Some("not allowed".to_string()),
            target: Some("job".to_string()),
            details: Some(vec![ErrorDetail {
                code: Some("Scope".to_string()),
                message: None,
                target: None,
            }]),
        },
    }
}

fn execution() -> JobStartResponse {
    JobStartResponse {
        name: "exec1".to_string(),
        id: "/subscriptions/s/resourceGroups/r/providers/Microsoft.App/jobs/foo/executions/exec1".to_string(),
    }
}

#[test]
fn status_known_names_decode() {
    assert_eq!(JobExecutionStatus::from_str("Running"), JobExecutionStatus::Running);
    assert_eq!(JobExecutionStatus::from_str("Succeeded"), JobExecutionStatus::Succeeded);
    assert_eq!(JobExecutionStatus::from_str("Failed"), JobExecutionStatus::Failed);
}

#[test]
fn status_unrecognised_is_unknown() {
    assert_eq!(JobExecutionStatus::from_str("Pending"), JobExecutionStatus::Unknown);
    assert_eq!(JobExecutionStatus::from_str(""), JobExecutionStatus::Unknown);
    assert_eq!(JobExecutionStatus::from_str("running"), JobExecutionStatus::Unknown);
    assert_eq!(JobExecutionStatus::from_str("Unknown"), JobExecutionStatus::Unknown);
    assert_eq!(JobExecutionStatus::from_field(None), JobExecutionStatus::Unknown);
    assert_eq!(JobExecutionStatus::from_field(Some("Failed")), JobExecutionStatus::Failed);
}

#[test]
fn status_names_round_trip() {
    for st in [
        JobExecutionStatus::Running,
        JobExecutionStatus::Succeeded,
        JobExecutionStatus::Failed,
        JobExecutionStatus::Unknown,
    ] {
        assert_eq!(JobExecutionStatus::from_str(st.to_str()), st);
    }
    assert_eq!(JobExecutionStatus::Succeeded.to_str(), "Succeeded");
    assert!(JobExecutionStatus::Failed.is_terminal());
    assert!(!JobExecutionStatus::Unknown.is_terminal());
}

#[test]
fn sentinel_error_fields() {
    let e = sentinel_error("boom".to_string());
    assert_eq!(e.error.code.as_deref(), Some("AzureError"));
    assert_eq!(e.error.message.as_deref(), Some("boom"));
    assert!(e.error.inner_error.is_none());
    assert!(e.error.target.is_none());
    assert!(e.error.details.is_none());
    match auth_failure("bad secret".to_string()) {
        CallError::Auth(a) => assert_eq!(a.error.message.as_deref(), Some("bad secret")),
        other => panic!("unexpected {:?}", other),
    }
    match transport_failure("timed out".to_string()) {
        CallError::Transport(a) => {
            assert_eq!(a.error.code.as_deref(), Some("AzureError"));
            assert_eq!(a.error.message.as_deref(), Some("timed out"));
        }
        other => panic!("unexpected {:?}", other),
    }
}

#[test]
fn success_status_bounds() {
    assert!(is_success_status(200));
    assert!(is_success_status(202));
    assert!(is_success_status(299));
    assert!(!is_success_status(199));
    assert!(!is_success_status(300));
    assert!(!is_success_status(403));
    assert!(!is_success_status(500));
}

#[test]
fn success_response_yields_body() {
    let r = classify_response(200, ResponseBody::Parsed(execution()));
    let v = r.unwrap();
    assert_eq!(v.name, "exec1");
    assert_eq!(v.id, execution().id);
}

#[test]
fn error_response_yields_envelope() {
    let r: Result<JobStartResponse, CallError> = classify_response(403, ResponseBody::ParsedError(forbidden()));
    match r {
        Err(CallError::Api(e)) => {
            assert_eq!(e.error.code.as_deref(), Some("Forbidden"));
            assert_eq!(e.error.message.as_deref(), Some("not allowed"));
            assert_eq!(e.error.target.as_deref(), Some("job"));
            let d = e.error.details.unwrap();
            assert_eq!(d.len(), 1);
            assert_eq!(d[0].code.as_deref(), Some("Scope"));
        }
        other => panic!("unexpected {:?}", other),
    }
}

#[test]
fn mismatched_or_unreadable_body_is_decode_failure() {
    let r: Result<JobStartResponse, CallError> = classify_response(200, ResponseBody::ParsedError(forbidden()));
    assert!(matches!(r, Err(CallError::Decode { status: 200, detail: None })));
    let r = classify_response(404, ResponseBody::Parsed(execution()));
    assert!(matches!(r, Err(CallError::Decode { status: 404, detail: None })));
    let r: Result<JobStartResponse, CallError> =
        classify_response(200, ResponseBody::Unparsable("expected value".to_string()));
    match r {
        Err(CallError::Decode { status, detail }) => {
            assert_eq!(status, 200);
            assert_eq!(detail.as_deref(), Some("expected value"));
        }
        other => panic!("unexpected {:?}", other),
    }
}

#[test]
fn fresh_token_is_reused_unchanged() {
    let mut c = sample_client();
    assert!(c.cached_token_at(0).is_none());
    let t = c.accept_token_at("tok-1".to_string(), Some(1_000), 10);
    assert_eq!(t.access_token(), "tok-1");
    assert_eq!(t.expires_at(), 1_000);
    let again = c.cached_token_at(999).unwrap();
    assert_eq!(again.access_token(), "tok-1");
    assert_eq!(again.expires_at(), 1_000);
}

#[test]
fn expired_token_needs_exchange() {
    let mut c = sample_client();
    c.accept_token_at("tok-1".to_string(), Some(1_000), 10);
    assert!(c.cached_token_at(1_000).is_none());
    assert!(c.cached_token_at(5_000).is_none());
}

#[test]
fn token_without_expiry_is_stale_at_once() {
    let mut c = sample_client();
    let t = c.accept_token_at("tok-2".to_string(), None, 77);
    assert_eq!(t.expires_at(), 77);
    assert!(c.cached_token_at(77).is_none());
    let t = c.accept_token("tok-3".to_string(), None);
    assert_eq!(t.access_token(), "tok-3");
    assert!(c.cached_token().is_none());
}

#[test]
fn cached_token_reads_the_clock() {
    let mut c = sample_client();
    assert!(c.cached_token().is_none());
    c.accept_token("far".to_string(), Some(i128::MAX));
    assert_eq!(c.cached_token().unwrap().access_token(), "far");
    c.accept_token("past".to_string(), Some(0));
    assert!(c.cached_token().is_none());
    let tok = AzureAccessToken::new("x".to_string(), 5);
    assert_eq!(tok.copy().expires_at(), 5);
}

#[test]
fn request_targets() {
    let c = sample_client();
    assert_eq!(
        c.start_job_url("foo"),
        "https://management.azure.com/subscriptions/sub-1/resourceGroups/rg-1/providers/Microsoft.App/jobs/foo/start?api-version=2024-03-01"
    );
    assert_eq!(
        execution_status_url(&execution()),
        "https://management.azure.com/subscriptions/s/resourceGroups/r/providers/Microsoft.App/jobs/foo/executions/exec1?api-version=2024-03-01"
    );
    let tok = AzureAccessToken::new("abc".to_string(), 1);
    assert_eq!(bearer_header(&tok), "Bearer abc");
    assert_eq!(token_scope(), "https://management.azure.com/.default");
    assert_eq!(c.client_id(), "cid");
    assert_eq!(c.client_secret(), "secret");
    assert_eq!(c.tenant_id(), "tenant");
}

#[test]
fn environment_var_holds_fields() {
    let v = EnvironmentVar { name: "A".to_string(), secret_ref: None, value: "b".to_string() };
    assert_eq!(v.clone().name, "A");
    assert!(v.secret_ref.is_none());
}

#[test]
fn scenario_running_then_succeeded() {
    let s = PollState::Starting;
    assert_eq!(next_action(&s), PollAction::Start);
    let (s, a) = poll_step(s, PollEvent::Started(Ok(execution())));
    assert_eq!(a, PollAction::WaitThenPoll { delay_secs: POLL_DELAY_SECS });
    assert_eq!(POLL_DELAY_SECS, 10);
    match &s {
        PollState::Polling(x) => assert_eq!(x.name, "exec1"),
        other => panic!("unexpected {:?}", other),
    }
    let (s, a) = poll_step(s, PollEvent::Polled(Ok(JobExecutionStatus::Running)));
    assert_eq!(a, PollAction::WaitThenPoll { delay_secs: 10 });
    assert_eq!(exit_code(&s), None);
    let (s, a) = poll_step(s, PollEvent::Polled(Ok(JobExecutionStatus::Succeeded)));
    assert_eq!(a, PollAction::Stop);
    assert!(matches!(s, PollState::Succeeded));
    assert_eq!(exit_code(&s), Some(0));
}

#[test]
fn scenario_job_failed() {
    let (s, _) = poll_step(PollState::Starting, PollEvent::Started(Ok(execution())));
    let (s, a) = poll_step(s, PollEvent::Polled(Ok(JobExecutionStatus::Failed)));
    assert_eq!(a, PollAction::Stop);
    assert!(matches!(s, PollState::Failed));
    assert_eq!(exit_code(&s), Some(0));
}

#[test]
fn scenario_start_forbidden() {
    let r: Result<JobStartResponse, CallError> = classify_response(403, ResponseBody::ParsedError(forbidden()));
    let (s, a) = poll_step(PollState::Starting, PollEvent::Started(r));
    assert_eq!(a, PollAction::Stop);
    match &s {
        PollState::Errored(CallError::Api(e)) => {
            assert_eq!(e.error.code.as_deref(), Some("Forbidden"));
            assert_eq!(e.error.message.as_deref(), Some("not allowed"));
        }
        other => panic!("unexpected {:?}", other),
    }
    assert_eq!(exit_code(&s), Some(1));
}

#[test]
fn scenario_poll_timeout() {
    let (s, _) = poll_step(PollState::Starting, PollEvent::Started(Ok(execution())));
    let (s, a) = poll_step(s, PollEvent::Polled(Err(transport_failure("operation timed out".to_string()))));
    assert_eq!(a, PollAction::Stop);
    match &s {
        PollState::Errored(CallError::Transport(e)) => {
            assert_eq!(e.error.code.as_deref(), Some("AzureError"));
            assert_eq!(e.error.message.as_deref(), Some("operation timed out"));
        }
        other => panic!("unexpected {:?}", other),
    }
    assert_eq!(exit_code(&s), Some(1));
}

#[test]
fn finished_watch_ignores_events() {
    let (s, a) = poll_step(PollState::Succeeded, PollEvent::Polled(Ok(JobExecutionStatus::Running)));
    assert!(matches!(s, PollState::Succeeded));
    assert_eq!(a, PollAction::Stop);
    let (s, a) = poll_step(PollState::Starting, PollEvent::Polled(Ok(JobExecutionStatus::Running)));
    assert!(matches!(s, PollState::Starting));
    assert_eq!(a, PollAction::Start);
}
