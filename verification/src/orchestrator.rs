//! Publishing from end to end: authorize, open the job, hand over the
//! archive, and wait for the registry to finish. One request is under way at
//! a time, and the first failure ends the sequence.
//!
//! The orchestrator decides and builds the requests; the caller sends them,
//! waits, and hands back what came of each action as the next event.

use vstd::prelude::*;
use vstd::utf8::encode_utf8;
use crate::api::{
    ApiRequest, AuthRequest, BooApiClient, CreatePublishJobRequest, RequestBody,
};
use crate::auth_flow::{
    auth_outcome, auth_transition, AuthAction, AuthEvent, AuthFlow, AuthStage,
};
use crate::common::BooPackageDefinition;
use crate::name::{package_of, scope_of, split_name};
use crate::outcome::{PublishingError, PublishingErrorView};
use crate::publish_job::{job_outcome, job_transition, JobAction, JobEvent, JobFlow};
use crate::text::joined3;

verus! {

/// Which part of the sequence is under way.
#[derive(Debug)]
pub enum PublishPhase {
    /// The user is asked to authorize the upload.
    Authorizing(AuthFlow),
    /// The authorization is over, and its request is being removed.
    Releasing(AuthFlow),
    /// The registry's job is under way.
    Publishing(JobFlow),
    /// Nothing is left to do.
    Finished,
}

/// The sequence as it stands: the client with its token, and what is still
/// to be sent.
pub struct PublishFlow {
    pub client: BooApiClient,
    /// What the job is to be opened with, until it is.
    pub job_request: Option<CreatePublishJobRequest>,
    /// The archive, until it is handed over.
    pub archive: Option<Vec<u8>>,
    pub phase: PublishPhase,
}

/// What came of the action that the orchestrator asked for.
pub enum PublishEvent {
    /// An event of the authorization.
    Authorization(AuthEvent),
    /// The authorization request was removed, or could not be.
    Released,
    /// An event of the job.
    Job(JobEvent),
}

/// What the caller is to do next. A request is to be sent, and its answer
/// reported as the event of the same part of the sequence.
pub enum PublishAction {
    CreateAuthRequest(ApiRequest),
    PollAuthorization(ApiRequest),
    /// Whether this request succeeds does not matter: report `Released`.
    ReleaseAuthorization(ApiRequest),
    CreateJob(ApiRequest),
    Upload(ApiRequest),
    PollJob(ApiRequest),
    /// Wait, then report `Woke` to the part under way.
    Sleep { seconds: u64 },
    /// The sequence is over, with this outcome.
    Finish(Result<(), PublishingError>),
}

/// The failure of a sequence that was handed an event it did not ask for.
pub open spec fn out_of_turn() -> PublishingErrorView {
    PublishingErrorView::ApiError("The registry's answer came out of turn."@)
}

/// The sequence is over with `failure`.
pub open spec fn stopped(after: PublishFlow, action: PublishAction, failure: PublishingErrorView) -> bool {
    &&& after.phase is Finished
    &&& action matches PublishAction::Finish(Err(error))
    &&& error@ == failure
}

/// Nothing but the phase differs.
pub open spec fn kept(before: PublishFlow, after: PublishFlow) -> bool {
    after.client == before.client && after.job_request == before.job_request && after.archive
        == before.archive
}

/// `call` goes out with the client's token.
pub open spec fn authorized(client: BooApiClient, call: ApiRequest) -> bool {
    call.authorization matches Some(header) && client.authorization() == Ok::<
        Seq<char>,
        Seq<char>,
    >(header@)
}

/// The permission that the upload of a version of a package needs.
pub open spec fn upload_permission(name: Seq<char>, version: Seq<char>) -> Seq<char> {
    "package.upload-new-version:"@ + name + "@"@ + version
}

/// What follows when the authorization, now at `auth`, asks for `asked`.
pub open spec fn authorization_step(
    before: PublishFlow,
    auth: AuthFlow,
    asked: AuthAction,
    after: PublishFlow,
    action: PublishAction,
) -> bool {
    match (asked, auth.request) {
        (AuthAction::Sleep { seconds }, _) => kept(before, after) && after.phase
            == PublishPhase::Authorizing(auth) && action == (PublishAction::Sleep { seconds }),
        (AuthAction::Poll, Some(request)) => {
            &&& kept(before, after)
            &&& after.phase == PublishPhase::Authorizing(auth)
            &&& action matches PublishAction::PollAuthorization(call)
            &&& call.method is Get
            &&& call.url@ == before.client.auth_request_url(encode_utf8(request.private_code@))
            &&& call.authorization is None
            &&& call.body is Empty
        },
        (AuthAction::Release, Some(request)) => {
            &&& kept(before, after)
            &&& after.phase == PublishPhase::Releasing(auth)
            &&& action matches PublishAction::ReleaseAuthorization(call)
            &&& call.method is Delete
            &&& call.url@ == before.client.auth_request_url(encode_utf8(request.private_code@))
            &&& call.authorization is None
            &&& call.body is Empty
        },
        (AuthAction::Stop, _) => match auth_outcome(auth.stage) {
            Some(Err(failure)) => stopped(after, action, failure),
            _ => stopped(after, action, out_of_turn()),
        },
        _ => stopped(after, action, out_of_turn()),
    }
}

/// What follows the removal of the request of the authorization `auth`: with
/// a token the job is opened, without one the sequence is over.
pub open spec fn release_step(
    before: PublishFlow,
    auth: AuthFlow,
    after: PublishFlow,
    action: PublishAction,
) -> bool {
    match (auth_outcome(auth.stage), before.job_request) {
        (Some(Ok(token)), Some(request)) => {
            &&& after.client.token() == Some(token)
            &&& after.client.app_name == before.client.app_name
            &&& after.client.base_url == before.client.base_url
            &&& after.job_request is None
            &&& after.archive == before.archive
            &&& after.phase matches PublishPhase::Publishing(job)
            &&& job.stage is JobCreated
            &&& job.publishing_id is None
            &&& action matches PublishAction::CreateJob(call)
            &&& call.method is Post
            &&& call.url@ == before.client.base_url@ + "publish"@
            &&& authorized(after.client, call)
            &&& call.body == RequestBody::PublishJob(request)
        },
        (Some(Err(failure)), _) => stopped(after, action, failure),
        _ => stopped(after, action, out_of_turn()),
    }
}

/// What follows when the job, now at `job`, asks for `asked`.
pub open spec fn job_step(
    before: PublishFlow,
    job: JobFlow,
    asked: JobAction,
    after: PublishFlow,
    action: PublishAction,
) -> bool {
    match asked {
        JobAction::Sleep { seconds } => kept(before, after) && after.phase
            == PublishPhase::Publishing(job) && action == (PublishAction::Sleep { seconds }),
        JobAction::Upload => match (job.publishing_id, before.archive, before.client.token()) {
            (Some(id), Some(bytes), Some(_)) => {
                &&& after.client == before.client
                &&& after.job_request == before.job_request
                &&& after.archive is None
                &&& after.phase == PublishPhase::Publishing(job)
                &&& action matches PublishAction::Upload(call)
                &&& call.method is Post
                &&& call.url@ == before.client.publish_job_url(id) + "/upload"@
                &&& authorized(before.client, call)
                &&& call.body == RequestBody::Archive(bytes)
            },
            (Some(_), Some(_), None) => stopped(
                after,
                action,
                PublishingErrorView::AuthError("Missing access token"@),
            ),
            _ => stopped(after, action, out_of_turn()),
        },
        JobAction::Poll => match (job.publishing_id, before.client.token()) {
            (Some(id), Some(_)) => {
                &&& kept(before, after)
                &&& after.phase == PublishPhase::Publishing(job)
                &&& action matches PublishAction::PollJob(call)
                &&& call.method is Get
                &&& call.url@ == before.client.publish_job_url(id)
                &&& authorized(before.client, call)
                &&& call.body is Empty
            },
            (Some(_), None) => stopped(
                after,
                action,
                PublishingErrorView::AuthError("Missing access token"@),
            ),
            _ => stopped(after, action, out_of_turn()),
        },
        JobAction::Stop => match job_outcome(job.stage) {
            Some(Ok(_)) => {
                &&& after.phase is Finished
                &&& action matches PublishAction::Finish(Ok(_))
            },
            Some(Err(failure)) => stopped(after, action, failure),
            None => stopped(after, action, out_of_turn()),
        },
    }
}

/// The step that the sequence `before` takes on `event`: it leaves the
/// sequence as `after` and asks for `action`.
pub open spec fn publish_transition(
    before: PublishFlow,
    event: PublishEvent,
    after: PublishFlow,
    action: PublishAction,
) -> bool {
    match (before.phase, event) {
        (PublishPhase::Authorizing(auth), PublishEvent::Authorization(inner)) => exists|
            next: AuthFlow,
            asked: AuthAction,
        | #[trigger]
            auth_transition(auth, inner, next, asked) && authorization_step(
                before,
                next,
                asked,
                after,
                action,
            ),
        (PublishPhase::Releasing(auth), PublishEvent::Released) => release_step(
            before,
            auth,
            after,
            action,
        ),
        (PublishPhase::Publishing(job), PublishEvent::Job(inner)) => exists|
            next: JobFlow,
            asked: JobAction,
        | #[trigger]
            job_transition(job, inner, next, asked) && job_step(before, next, asked, after, action),
        _ => stopped(after, action, out_of_turn()),
    }
}

/// Ends the sequence because an event came that was not asked for.
fn stop_out_of_turn(
    client: BooApiClient,
    job_request: Option<CreatePublishJobRequest>,
    archive: Option<Vec<u8>>,
) -> (next: (PublishFlow, PublishAction))
    ensures
        stopped(next.0, next.1, out_of_turn()),
{
    stop_with(
        client,
        job_request,
        archive,
        PublishingError::ApiError(String::from_str("The registry's answer came out of turn.")),
    )
}

/// Ends the sequence with `failure`.
fn stop_with(
    client: BooApiClient,
    job_request: Option<CreatePublishJobRequest>,
    archive: Option<Vec<u8>>,
    failure: PublishingError,
) -> (next: (PublishFlow, PublishAction))
    ensures
        stopped(next.0, next.1, failure@),
{
    (
        PublishFlow { client, job_request, archive, phase: PublishPhase::Finished },
        PublishAction::Finish(Err(failure)),
    )
}

impl PublishFlow {
    /// Begins the sequence for the package `definition` with its `archive`:
    /// the first request asks for the permission to upload that version, in
    /// the client's name. The job will be opened for the scope and the
    /// package that stand before and behind the `/` of the package's name.
    pub fn start(client: BooApiClient, definition: &BooPackageDefinition, archive: Vec<u8>) -> (next: (
        PublishFlow,
        PublishAction,
    ))
        ensures
            next.0.client == client,
            next.0.archive == Some(archive),
            ({
                &&& next.0.phase matches PublishPhase::Authorizing(auth)
                &&& auth.stage is Created
                &&& auth.request is None
            }),
            ({
                &&& next.0.job_request matches Some(request)
                &&& request.scope@ == scope_of(definition.name@)
                &&& request.name@ == package_of(definition.name@)
                &&& request.version@ == definition.version@
            }),
            ({
                &&& next.1 matches PublishAction::CreateAuthRequest(call)
                &&& call.method is Post
                &&& call.url@ == client.base_url@ + "auth/request"@
                &&& call.authorization is None
                &&& call.body matches RequestBody::Authorization(request)
                &&& request.app_name@ == client.app_name@
                &&& request.requested_permissions@.len() == 1
                &&& request.requested_permissions@[0]@ == upload_permission(
                    definition.name@,
                    definition.version@,
                )
            }),
    {
        let mut permission = joined3(
            "package.upload-new-version:",
            definition.name.as_str(),
            "@",
        );
        permission.append(definition.version.as_str());
        let mut requested_permissions: Vec<String> = Vec::new();
        requested_permissions.push(permission);
        let call = client.create_auth_request(
            AuthRequest { app_name: client.app_name.clone(), requested_permissions },
        );
        let (scope, name) = split_name(definition.name.as_str());
        let job_request = CreatePublishJobRequest {
            scope,
            name,
            version: definition.version.clone(),
        };
        (
            PublishFlow {
                client,
                job_request: Some(job_request),
                archive: Some(archive),
                phase: PublishPhase::Authorizing(AuthFlow::new()),
            },
            PublishAction::CreateAuthRequest(call),
        )
    }

    /// Takes the sequence one step further on `event`. An event that was
    /// not asked for ends the sequence as a failure.
    pub fn step(self, event: PublishEvent) -> (next: (PublishFlow, PublishAction))
        ensures
            publish_transition(self, event, next.0, next.1),
    {
        let PublishFlow { client, job_request, archive, phase } = self;
        match (phase, event) {
            (PublishPhase::Authorizing(auth), PublishEvent::Authorization(inner)) => {
                let (auth, asked) = auth.step(inner);
                let next = Self::follow_authorization(client, job_request, archive, auth, asked);
                next
            },
            (PublishPhase::Releasing(auth), PublishEvent::Released) => Self::follow_release(
                client,
                job_request,
                archive,
                auth,
            ),
            (PublishPhase::Publishing(job), PublishEvent::Job(inner)) => {
                let (job, asked) = job.step(inner);
                let next = Self::follow_job(client, job_request, archive, job, asked);
                next
            },
            (_, _) => stop_out_of_turn(client, job_request, archive),
        }
    }

    fn follow_authorization(
        client: BooApiClient,
        job_request: Option<CreatePublishJobRequest>,
        archive: Option<Vec<u8>>,
        auth: AuthFlow,
        asked: AuthAction,
    ) -> (next: (PublishFlow, PublishAction))
        ensures
            authorization_step(
                PublishFlow { client, job_request, archive, phase: PublishPhase::Finished },
                auth,
                asked,
                next.0,
                next.1,
            ),
    {
        match asked {
            AuthAction::Sleep { seconds } => (
                PublishFlow { client, job_request, archive, phase: PublishPhase::Authorizing(auth) },
                PublishAction::Sleep { seconds },
            ),
            AuthAction::Poll => {
                let call = match &auth.request {
                    Some(request) => client.get_auth_request_status(request.private_code.as_str()),
                    None => {
                        return stop_out_of_turn(client, job_request, archive);
                    },
                };
                (
                    PublishFlow {
                        client,
                        job_request,
                        archive,
                        phase: PublishPhase::Authorizing(auth),
                    },
                    PublishAction::PollAuthorization(call),
                )
            },
            AuthAction::Release => {
                let call = match &auth.request {
                    Some(request) => client.delete_auth_request(request.private_code.as_str()),
                    None => {
                        return stop_out_of_turn(client, job_request, archive);
                    },
                };
                (
                    PublishFlow {
                        client,
                        job_request,
                        archive,
                        phase: PublishPhase::Releasing(auth),
                    },
                    PublishAction::ReleaseAuthorization(call),
                )
            },
            AuthAction::Stop => match auth.into_outcome() {
                Some(Err(failure)) => stop_with(client, job_request, archive, failure),
                _ => stop_out_of_turn(client, job_request, archive),
            },
        }
    }

    fn follow_release(
        client: BooApiClient,
        job_request: Option<CreatePublishJobRequest>,
        archive: Option<Vec<u8>>,
        auth: AuthFlow,
    ) -> (next: (PublishFlow, PublishAction))
        ensures
            release_step(
                PublishFlow { client, job_request, archive, phase: PublishPhase::Finished },
                auth,
                next.0,
                next.1,
            ),
    {
        let mut client = client;
        match (auth.into_outcome(), job_request) {
            (Some(Ok(token)), Some(request)) => {
                client.set_access_token(token);
                match client.create_publishing_job(request) {
                    Ok(call) => (
                        PublishFlow {
                            client,
                            job_request: None,
                            archive,
                            phase: PublishPhase::Publishing(JobFlow::new()),
                        },
                        PublishAction::CreateJob(call),
                    ),
                    Err(error) => stop_with(client, None, archive, PublishingError::from(&error)),
                }
            },
            (Some(Err(failure)), job_request) => stop_with(client, job_request, archive, failure),
            (_, job_request) => stop_out_of_turn(client, job_request, archive),
        }
    }

    fn follow_job(
        client: BooApiClient,
        job_request: Option<CreatePublishJobRequest>,
        archive: Option<Vec<u8>>,
        job: JobFlow,
        asked: JobAction,
    ) -> (next: (PublishFlow, PublishAction))
        ensures
            job_step(
                PublishFlow { client, job_request, archive, phase: PublishPhase::Finished },
                job,
                asked,
                next.0,
                next.1,
            ),
    {
        match asked {
            JobAction::Sleep { seconds } => (
                PublishFlow { client, job_request, archive, phase: PublishPhase::Publishing(job) },
                PublishAction::Sleep { seconds },
            ),
            JobAction::Upload => match (job.publishing_id, archive) {
                (Some(id), Some(bytes)) => match client.upload_package(&id, bytes) {
                    Ok(call) => (
                        PublishFlow {
                            client,
                            job_request,
                            archive: None,
                            phase: PublishPhase::Publishing(job),
                        },
                        PublishAction::Upload(call),
                    ),
                    Err(error) => stop_with(client, job_request, None, PublishingError::from(&error)),
                },
                (_, archive) => stop_out_of_turn(client, job_request, archive),
            },
            JobAction::Poll => match job.publishing_id {
                Some(id) => match client.get_publish_job_status(id) {
                    Ok(call) => (
                        PublishFlow {
                            client,
                            job_request,
                            archive,
                            phase: PublishPhase::Publishing(job),
                        },
                        PublishAction::PollJob(call),
                    ),
                    Err(error) => stop_with(
                        client,
                        job_request,
                        archive,
                        PublishingError::from(&error),
                    ),
                },
                None => stop_out_of_turn(client, job_request, archive),
            },
            JobAction::Stop => match job.into_outcome() {
                Some(Ok(_)) => (
                    PublishFlow { client, job_request, archive, phase: PublishPhase::Finished },
                    PublishAction::Finish(Ok(())),
                ),
                Some(Err(failure)) => stop_with(client, job_request, archive, failure),
                None => stop_out_of_turn(client, job_request, archive),
            },
        }
    }
}

/// The sequence stops at the first failure: a step that ends the sequence
/// leaves it finished, and a finished sequence takes no further step.
pub proof fn lemma_finish_is_final(
    before: PublishFlow,
    event: PublishEvent,
    after: PublishFlow,
    action: PublishAction,
)
    requires
        publish_transition(before, event, after, action),
    ensures
        action is Finish ==> after.phase is Finished,
        before.phase is Finished ==> stopped(after, action, out_of_turn()),
{
}

/// The job is opened only with the token of an approved authorization, and
/// only once the authorization's request was released.
pub proof fn lemma_job_needs_approval(
    before: PublishFlow,
    event: PublishEvent,
    after: PublishFlow,
    action: PublishAction,
)
    requires
        publish_transition(before, event, after, action),
        action is CreateJob,
    ensures
        event is Released,
        before.phase matches PublishPhase::Releasing(auth) && auth.stage matches AuthStage::Approved {
            token,
        } && after.client.token() == Some(token@),
{
}

} // verus!
