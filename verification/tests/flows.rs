use boo::api::{
    ApiRequestError, AuthRequestResponse, AuthRequestStatus, AuthRequestStatusResponse,
    PackagePublishJobStatus, PublishJob, PublishJobResult, PublishJobResultError,
};
use boo::auth_flow::{
    AuthAction, AuthEvent, AuthFlow, AuthStage, AUTH_TIMEOUT_SECS, POLLING_INTERVAL_SECS,
};
use boo::outcome::{PublishingError, Wait};
use boo::publish_job::{JobAction, JobEvent, JobFlow, JobStage, PUBLISH_JOB_WAIT_TIMEOUT_SECS};

fn codes() -> AuthRequestResponse {
    AuthRequestResponse {
        private_code: "private".to_string(),
        public_code: "public".to_string(),
        expires_at: "2030-01-01T00:00:00Z".to_string(),
        request_url: "https://registry.test/approve/public".to_string(),
    }
}

fn status(status: AuthRequestStatus, token: Option<&str>) -> AuthRequestStatusResponse {
    AuthRequestStatusResponse {
        status,
        expires_at: "2030-01-01T00:00:00Z".to_string(),
        access_token: token.map(|token| token.to_string()),
    }
}

/// Runs the flow against a registry that answers with `answers` in turn and
/// a clock that moves by one interval with each sleep. Gives the outcome and
/// the number of sleeps.
fn authorize(answers: Vec<AuthRequestStatusResponse>) -> (Option<Result<String, PublishingError>>, u64, AuthAction) {
    let (mut flow, mut action) = AuthFlow::new().step(AuthEvent::RequestCreated(Ok(codes())));
    let mut answers = answers.into_iter();
    let mut sleeps = 0;
    let mut elapsed = 0;
    loop {
        let event = match action {
            AuthAction::Poll => match answers.next() {
                Some(answer) => AuthEvent::Status(Ok(answer)),
                None => panic!("the flow asked more often than the registry answers"),
            },
            AuthAction::Sleep { seconds } => {
                sleeps += 1;
                elapsed += seconds;
                AuthEvent::Woke { elapsed_secs: elapsed }
            }
            AuthAction::Release | AuthAction::Stop => return (flow.into_outcome(), sleeps, action),
        };
        (flow, action) = flow.step(event);
    }
}

#[test]
fn the_flows_wait_a_second_between_questions() {
    assert_eq!(POLLING_INTERVAL_SECS, 1);
    assert_eq!(AUTH_TIMEOUT_SECS, 300);
    assert_eq!(PUBLISH_JOB_WAIT_TIMEOUT_SECS, 600);
}

#[test]
fn approval_after_two_pending_answers_takes_two_intervals() {
    let (outcome, sleeps, last) = authorize(vec![
        status(AuthRequestStatus::Pending, None),
        status(AuthRequestStatus::Pending, None),
        status(AuthRequestStatus::Approved, Some("T")),
    ]);
    assert_eq!(outcome.unwrap().ok(), Some("T".to_string()));
    assert_eq!(sleeps, 2);
    assert!(matches!(last, AuthAction::Release));
}

#[test]
fn approval_at_once_takes_no_interval() {
    let (outcome, sleeps, _) = authorize(vec![status(AuthRequestStatus::Approved, Some("T"))]);
    assert_eq!(outcome.unwrap().ok(), Some("T".to_string()));
    assert_eq!(sleeps, 0);
}

#[test]
fn denial_ends_the_flow_as_denied() {
    let (outcome, sleeps, last) = authorize(vec![
        status(AuthRequestStatus::Pending, None),
        status(AuthRequestStatus::Denied, None),
    ]);
    assert!(matches!(outcome, Some(Err(PublishingError::AuthDenied))));
    assert_eq!(sleeps, 1);
    assert!(matches!(last, AuthAction::Release));
}

#[test]
fn a_denial_with_a_token_is_a_denial() {
    let (outcome, _, _) = authorize(vec![status(AuthRequestStatus::Denied, Some("T"))]);
    assert!(matches!(outcome, Some(Err(PublishingError::AuthDenied))));
}

#[test]
fn pending_past_the_ceiling_times_out() {
    let answers = (0..400).map(|_| status(AuthRequestStatus::Pending, Some("early"))).collect();
    let (outcome, sleeps, last) = authorize(answers);
    assert!(matches!(outcome, Some(Err(PublishingError::TimedOut(Wait::Authorization)))));
    assert_eq!(sleeps, 301);
    assert!(matches!(last, AuthAction::Release));
}

#[test]
fn the_ceiling_itself_is_in_time() {
    let flow = AuthFlow { stage: AuthStage::AwaitingApproval, request: Some(codes()) };
    let (flow, action) = flow.step(AuthEvent::Woke { elapsed_secs: 300 });
    assert!(matches!(flow.stage, AuthStage::AwaitingApproval));
    assert!(matches!(action, AuthAction::Poll));
    let (flow, action) = flow.step(AuthEvent::Woke { elapsed_secs: 301 });
    assert!(matches!(flow.stage, AuthStage::TimedOut));
    assert!(matches!(action, AuthAction::Release));
    assert_eq!(flow.request.unwrap().private_code, "private");
}

#[test]
fn approval_without_a_token_is_an_error() {
    let (outcome, _, last) = authorize(vec![status(AuthRequestStatus::Approved, None)]);
    match outcome {
        Some(Err(PublishingError::ApiError(message))) => {
            assert_eq!(message, "No access token provided in the approval response.")
        }
        _ => panic!("expected an API error"),
    }
    assert!(matches!(last, AuthAction::Release));
}

#[test]
fn a_request_that_cannot_be_opened_ends_the_flow() {
    let (flow, action) = AuthFlow::new()
        .step(AuthEvent::RequestCreated(Err(ApiRequestError::ApiError("closed".to_string()))));
    assert!(matches!(action, AuthAction::Stop));
    assert!(flow.request.is_none());
    match flow.into_outcome() {
        Some(Err(PublishingError::ApiError(message))) => assert_eq!(message, "closed"),
        _ => panic!("expected an API error"),
    }
}

#[test]
fn a_question_that_fails_ends_the_flow_and_releases_the_request() {
    let (flow, _) = AuthFlow::new().step(AuthEvent::RequestCreated(Ok(codes())));
    let (flow, action) =
        flow.step(AuthEvent::Status(Err(ApiRequestError::AuthError("no".to_string()))));
    assert!(matches!(action, AuthAction::Release));
    match flow.into_outcome() {
        Some(Err(PublishingError::AuthError(message))) => assert_eq!(message, "no"),
        _ => panic!("expected an authorization error"),
    }
}

#[test]
fn an_open_request_is_kept_and_asked_about() {
    let (flow, action) = AuthFlow::new().step(AuthEvent::RequestCreated(Ok(codes())));
    assert!(matches!(flow.stage, AuthStage::AwaitingApproval));
    assert!(matches!(action, AuthAction::Poll));
    assert_eq!(flow.request.as_ref().unwrap().private_code, "private");
    assert_eq!(flow.request.as_ref().unwrap().request_url, "https://registry.test/approve/public");
    assert!(flow.into_outcome().is_none());
}

#[test]
fn an_event_out_of_turn_changes_nothing() {
    let (flow, action) = AuthFlow::new().step(AuthEvent::Woke { elapsed_secs: 1000 });
    assert!(matches!(flow.stage, AuthStage::Created));
    assert!(matches!(action, AuthAction::Stop));
    let done = AuthFlow { stage: AuthStage::Denied, request: Some(codes()) };
    let (done, action) =
        done.step(AuthEvent::Status(Ok(status(AuthRequestStatus::Approved, Some("T")))));
    assert!(matches!(done.stage, AuthStage::Denied));
    assert!(matches!(action, AuthAction::Stop));
}

fn job(status: PackagePublishJobStatus, result: Option<PublishJobResult>) -> PublishJob {
    PublishJob {
        publishing_id: 42,
        package_scope: "scope".to_string(),
        package_name: "package".to_string(),
        publishing_version: "1.2.3".to_string(),
        status,
        result,
    }
}

fn failed_with(errors: &[&str]) -> PublishJob {
    job(
        PackagePublishJobStatus::Failed,
        Some(PublishJobResult::Error(PublishJobResultError {
            errors: errors.iter().map(|error| error.to_string()).collect(),
        })),
    )
}

/// Runs the flow of a job whose status the registry reports as `answers` in
/// turn. Gives the outcome and the number of sleeps.
fn publish(answers: Vec<PublishJob>) -> (Option<Result<(), PublishingError>>, u64) {
    let (flow, action) = JobFlow::new()
        .step(JobEvent::Created(Ok(job(PackagePublishJobStatus::Completed, None))));
    assert!(matches!(action, JobAction::Upload));
    assert!(matches!(flow.stage, JobStage::Uploading));
    assert_eq!(flow.publishing_id, Some(42));
    let (mut flow, mut action) =
        flow.step(JobEvent::Uploaded(Ok(job(PackagePublishJobStatus::Failed, None))));
    let mut answers = answers.into_iter();
    let mut sleeps = 0;
    let mut elapsed = 0;
    loop {
        let event = match action {
            JobAction::Poll => JobEvent::Status(Ok(answers.next().unwrap())),
            JobAction::Sleep { seconds } => {
                sleeps += 1;
                elapsed += seconds;
                JobEvent::Woke { elapsed_secs: elapsed }
            }
            JobAction::Upload => panic!("the archive is handed over once"),
            JobAction::Stop => return (flow.into_outcome(), sleeps),
        };
        (flow, action) = flow.step(event);
    }
}

#[test]
fn a_completed_job_is_a_success() {
    let (outcome, sleeps) = publish(vec![
        job(PackagePublishJobStatus::Pending, None),
        job(PackagePublishJobStatus::Queued, None),
        job(PackagePublishJobStatus::InProgress, None),
        job(PackagePublishJobStatus::Completed, Some(PublishJobResult::Success)),
    ]);
    assert!(matches!(outcome, Some(Ok(()))));
    assert_eq!(sleeps, 3);
}

#[test]
fn a_failed_job_gives_its_messages() {
    let (outcome, _) = publish(vec![failed_with(&["bad file"])]);
    match outcome {
        Some(Err(PublishingError::PublishJobFailed(messages))) => {
            assert_eq!(messages, vec!["bad file".to_string()])
        }
        _ => panic!("expected a failed job"),
    }
    let (outcome, _) = publish(vec![failed_with(&["one", "two"])]);
    match outcome {
        Some(Err(PublishingError::PublishJobFailed(messages))) => {
            assert_eq!(messages, vec!["one".to_string(), "two".to_string()])
        }
        _ => panic!("expected a failed job"),
    }
}

#[test]
fn a_failed_job_without_result_gives_one_message() {
    for result in [None, Some(PublishJobResult::Success)] {
        let (outcome, _) = publish(vec![job(PackagePublishJobStatus::Failed, result)]);
        match outcome {
            Some(Err(PublishingError::PublishJobFailed(messages))) => {
                assert_eq!(messages, vec!["Publishing job failed without details".to_string()])
            }
            _ => panic!("expected a failed job"),
        }
    }
}

#[test]
fn a_job_that_never_ends_times_out() {
    let answers = (0..700).map(|_| job(PackagePublishJobStatus::InProgress, None)).collect();
    let (outcome, sleeps) = publish(answers);
    assert!(matches!(outcome, Some(Err(PublishingError::TimedOut(Wait::PublishJob)))));
    assert_eq!(sleeps, 601);
}

#[test]
fn the_status_of_a_new_job_is_ignored() {
    for status in [PackagePublishJobStatus::Failed, PackagePublishJobStatus::Completed] {
        let (flow, action) = JobFlow::new().step(JobEvent::Created(Ok(job(status, None))));
        assert!(matches!(flow.stage, JobStage::Uploading));
        assert!(matches!(action, JobAction::Upload));
    }
}

#[test]
fn a_failed_upload_ends_the_flow() {
    let (flow, _) =
        JobFlow::new().step(JobEvent::Created(Ok(job(PackagePublishJobStatus::Pending, None))));
    let (flow, action) =
        flow.step(JobEvent::Uploaded(Err(ApiRequestError::ApiError("too large".to_string()))));
    assert!(matches!(action, JobAction::Stop));
    match flow.into_outcome() {
        Some(Err(PublishingError::ApiError(message))) => assert_eq!(message, "too large"),
        _ => panic!("expected an API error"),
    }
}

#[test]
fn a_job_that_cannot_be_opened_ends_the_flow() {
    let (flow, action) =
        JobFlow::new().step(JobEvent::Created(Err(ApiRequestError::ApiError("no".to_string()))));
    assert!(matches!(action, JobAction::Stop));
    assert_eq!(flow.publishing_id, None);
    assert!(matches!(flow.into_outcome(), Some(Err(PublishingError::ApiError(_)))));
}

#[test]
fn a_job_event_out_of_turn_changes_nothing() {
    let (flow, action) = JobFlow::new().step(JobEvent::Woke { elapsed_secs: 1 });
    assert!(matches!(flow.stage, JobStage::JobCreated));
    assert!(matches!(action, JobAction::Stop));
    assert!(flow.into_outcome().is_none());
}
