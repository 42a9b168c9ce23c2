//! The publish job: the registry opens a job, takes the archive, and works
//! on it while the flow asks at intervals how the job stands, until the job
//! is completed or failed, or until its time is out.
//!
//! The flow decides; it neither sends nor waits. The caller performs each
//! action and hands back what came of it as the next event.

use vstd::prelude::*;
use crate::api::{ApiRequestError, PackagePublishJobStatus, PublishJob, PublishJobResult};
use crate::auth_flow::POLLING_INTERVAL_SECS;
use crate::outcome::{failure_of, lines_text, PublishingError, PublishingErrorView, Wait};

verus! {

/// Seconds after which a publish job is given up.
pub const PUBLISH_JOB_WAIT_TIMEOUT_SECS: u64 = 600;

/// Where the job's flow stands.
#[derive(Debug)]
pub enum JobStage {
    /// The job is being opened.
    JobCreated,
    /// The archive is being handed over.
    Uploading,
    /// The registry works on the job.
    AwaitingCompletion,
    /// The package is published.
    Completed,
    /// The job failed, or a request to the registry did.
    Failed(PublishingError),
    /// The registry did not finish in time.
    TimedOut,
}

/// The flow: its stage, and the job's number once the job is open.
#[derive(Debug)]
pub struct JobFlow {
    pub stage: JobStage,
    pub publishing_id: Option<i64>,
}

/// What came of the action that the flow asked for.
pub enum JobEvent {
    /// The answer to the opening of the job.
    Created(Result<PublishJob, ApiRequestError>),
    /// The answer to the archive.
    Uploaded(Result<PublishJob, ApiRequestError>),
    /// The answer to the question how the job stands.
    Status(Result<PublishJob, ApiRequestError>),
    /// The wait is over. `elapsed_secs` is the time since the archive was
    /// handed over.
    Woke { elapsed_secs: u64 },
}

/// What the caller is to do next.
#[derive(Debug, Clone, Copy)]
pub enum JobAction {
    /// Hand the archive to the job.
    Upload,
    /// Ask how the job stands.
    Poll,
    /// Wait, then report `Woke`.
    Sleep { seconds: u64 },
    /// The flow is over.
    Stop,
}

impl JobStage {
    /// The flow is over at this stage.
    pub open spec fn is_terminal(self) -> bool {
        self is Completed || self is Failed || self is TimedOut
    }
}

/// What is said of a failed job: the messages of its result, or one message
/// that says that there are none where the job has no such result.
pub open spec fn failure_messages(result: Option<PublishJobResult>) -> Seq<Seq<char>> {
    match result {
        Some(PublishJobResult::Error(details)) => lines_text(details.errors@),
        _ => seq!["Publishing job failed without details"@],
    }
}

/// The step that the flow `before` takes on `event`: it leaves the flow as
/// `after` and asks for `action`.
pub open spec fn job_transition(before: JobFlow, event: JobEvent, after: JobFlow, action: JobAction) -> bool {
    match (before.stage, event) {
        (JobStage::JobCreated, JobEvent::Created(Ok(job))) => {
            &&& after.stage is Uploading
            &&& after.publishing_id == Some(job.publishing_id)
            &&& action is Upload
        },
        (JobStage::JobCreated, JobEvent::Created(Err(error))) | (
            JobStage::Uploading,
            JobEvent::Uploaded(Err(error)),
        ) | (JobStage::AwaitingCompletion, JobEvent::Status(Err(error))) => {
            &&& after.stage matches JobStage::Failed(failure) && failure@ == failure_of(error)
            &&& after.publishing_id == before.publishing_id
            &&& action is Stop
        },
        (JobStage::Uploading, JobEvent::Uploaded(Ok(_))) => {
            &&& after.stage is AwaitingCompletion
            &&& after.publishing_id == before.publishing_id
            &&& action is Poll
        },
        (JobStage::AwaitingCompletion, JobEvent::Status(Ok(job))) => {
            &&& after.publishing_id == before.publishing_id
            &&& match job.status {
                PackagePublishJobStatus::Completed => after.stage is Completed && action is Stop,
                PackagePublishJobStatus::Failed => {
                    &&& after.stage matches JobStage::Failed(failure)
                    &&& failure@ == PublishingErrorView::PublishJobFailed(
                        failure_messages(job.result),
                    )
                    &&& action is Stop
                },
                _ => after.stage is AwaitingCompletion && action == (JobAction::Sleep {
                    seconds: POLLING_INTERVAL_SECS,
                }),
            }
        },
        (JobStage::AwaitingCompletion, JobEvent::Woke { elapsed_secs }) => {
            &&& after.publishing_id == before.publishing_id
            &&& if elapsed_secs > PUBLISH_JOB_WAIT_TIMEOUT_SECS {
                after.stage is TimedOut && action is Stop
            } else {
                after.stage is AwaitingCompletion && action is Poll
            }
        },
        _ => after == before && action is Stop,
    }
}

/// The outcome of a flow at `stage`, where it is over.
pub open spec fn job_outcome(stage: JobStage) -> Option<Result<(), PublishingErrorView>> {
    match stage {
        JobStage::Completed => Some(Ok(())),
        JobStage::Failed(failure) => Some(Err(failure@)),
        JobStage::TimedOut => Some(Err(PublishingErrorView::TimedOut(Wait::PublishJob))),
        _ => None,
    }
}

/// A flow's outcome with its texts as plain values.
pub open spec fn job_outcome_view(outcome: Option<Result<(), PublishingError>>) -> Option<
    Result<(), PublishingErrorView>,
> {
    match outcome {
        None => None,
        Some(Ok(_)) => Some(Ok(())),
        Some(Err(failure)) => Some(Err(failure@)),
    }
}

/// The messages of a failed job.
fn failed_job_messages(result: Option<PublishJobResult>) -> (messages: Vec<String>)
    ensures
        lines_text(messages@) == failure_messages(result),
{
    match result {
        Some(PublishJobResult::Error(details)) => details.errors,
        _ => {
            let mut messages: Vec<String> = Vec::new();
            messages.push(String::from_str("Publishing job failed without details"));
            messages
        },
    }
}

impl JobFlow {
    /// A flow whose job is being opened. The caller opens the job and
    /// reports `Created`.
    pub fn new() -> (flow: Self)
        ensures
            flow.stage is JobCreated,
            flow.publishing_id is None,
    {
        JobFlow { stage: JobStage::JobCreated, publishing_id: None }
    }

    /// Takes the flow one step further on `event`. An event that the flow
    /// did not ask for changes nothing and stops the caller.
    pub fn step(self, event: JobEvent) -> (next: (JobFlow, JobAction))
        ensures
            job_transition(self, event, next.0, next.1),
    {
        let publishing_id = self.publishing_id;
        match (self.stage, event) {
            (JobStage::JobCreated, JobEvent::Created(Ok(job))) => (
                JobFlow { stage: JobStage::Uploading, publishing_id: Some(job.publishing_id) },
                JobAction::Upload,
            ),
            (JobStage::JobCreated, JobEvent::Created(Err(error))) => (
                JobFlow { stage: JobStage::Failed(PublishingError::from(&error)), publishing_id },
                JobAction::Stop,
            ),
            (JobStage::Uploading, JobEvent::Uploaded(Ok(_))) => (
                JobFlow { stage: JobStage::AwaitingCompletion, publishing_id },
                JobAction::Poll,
            ),
            (JobStage::Uploading, JobEvent::Uploaded(Err(error))) => (
                JobFlow { stage: JobStage::Failed(PublishingError::from(&error)), publishing_id },
                JobAction::Stop,
            ),
            (JobStage::AwaitingCompletion, JobEvent::Status(Ok(job))) => match job.status {
                PackagePublishJobStatus::Completed => (
                    JobFlow { stage: JobStage::Completed, publishing_id },
                    JobAction::Stop,
                ),
                PackagePublishJobStatus::Failed => (
                    JobFlow {
                        stage: JobStage::Failed(
                            PublishingError::PublishJobFailed(failed_job_messages(job.result)),
                        ),
                        publishing_id,
                    },
                    JobAction::Stop,
                ),
                _ => (
                    JobFlow { stage: JobStage::AwaitingCompletion, publishing_id },
                    JobAction::Sleep { seconds: POLLING_INTERVAL_SECS },
                ),
            },
            (JobStage::AwaitingCompletion, JobEvent::Status(Err(error))) => (
                JobFlow { stage: JobStage::Failed(PublishingError::from(&error)), publishing_id },
                JobAction::Stop,
            ),
            (JobStage::AwaitingCompletion, JobEvent::Woke { elapsed_secs }) => {
                if elapsed_secs > PUBLISH_JOB_WAIT_TIMEOUT_SECS {
                    (JobFlow { stage: JobStage::TimedOut, publishing_id }, JobAction::Stop)
                } else {
                    (JobFlow { stage: JobStage::AwaitingCompletion, publishing_id }, JobAction::Poll)
                }
            },
            (stage, _) => (JobFlow { stage, publishing_id }, JobAction::Stop),
        }
    }

    /// The flow's outcome. `None` while the flow is not over.
    pub fn into_outcome(self) -> (outcome: Option<Result<(), PublishingError>>)
        ensures
            job_outcome_view(outcome) == job_outcome(self.stage),
    {
        match self.stage {
            JobStage::Completed => Some(Ok(())),
            JobStage::Failed(failure) => Some(Err(failure)),
            JobStage::TimedOut => Some(Err(PublishingError::TimedOut(Wait::PublishJob))),
            _ => None,
        }
    }
}

/// A failed job without a result of failure is told of in one message: the
/// list of messages is never empty for want of a result.
pub proof fn lemma_failure_without_details(result: Option<PublishJobResult>)
    requires
        !(result matches Some(PublishJobResult::Error(_))),
    ensures
        failure_messages(result) == seq!["Publishing job failed without details"@],
        failure_messages(result).len() == 1,
{
}

/// A well-formed job that failed is told of in the messages of its result.
pub proof fn lemma_well_formed_failure(job: PublishJob)
    requires
        job.well_formed(),
        job.status is Failed,
    ensures
        job.result matches Some(PublishJobResult::Error(details)) && failure_messages(job.result)
            == lines_text(details.errors@),
{
}

/// A job that the registry reports as failed ends the flow with the
/// messages of the job's result.
pub proof fn lemma_failed_job(before: JobFlow, job: PublishJob, after: JobFlow, action: JobAction)
    requires
        before.stage is AwaitingCompletion,
        job.status is Failed,
        job_transition(before, JobEvent::Status(Ok(job)), after, action),
    ensures
        action is Stop,
        job_outcome(after.stage) == Some(
            Err::<(), PublishingErrorView>(
                PublishingErrorView::PublishJobFailed(failure_messages(job.result)),
            ),
        ),
        job.result matches Some(PublishJobResult::Error(details)) ==> failure_messages(job.result)
            == lines_text(details.errors@),
{
}

/// A flow that is over takes no further step: whatever the event, the flow
/// stays as it is and the caller is stopped.
pub proof fn lemma_terminal_stage_stays(
    before: JobFlow,
    event: JobEvent,
    after: JobFlow,
    action: JobAction,
)
    requires
        before.stage.is_terminal(),
        job_transition(before, event, after, action),
    ensures
        after == before,
        action is Stop,
{
}

/// A flow has an outcome when it is over, and not before.
pub proof fn lemma_outcome_needs_terminal_stage(stage: JobStage)
    ensures
        stage.is_terminal() <==> job_outcome(stage) is Some,
{
}

} // verus!
