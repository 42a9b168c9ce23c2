//! The authorization flow: a request is opened, the user decides on the
//! registry's page, and the flow asks at intervals how the request stands
//! until it is approved or denied, or until its time is out.
//!
//! The flow decides; it neither sends nor waits. The caller performs each
//! action and hands back what came of it as the next event.

use vstd::prelude::*;
use crate::api::{
    ApiRequestError, AuthRequestResponse, AuthRequestStatus, AuthRequestStatusResponse,
};
use crate::outcome::{failure_of, PublishingError, PublishingErrorView, Wait};

verus! {

/// Seconds between two questions to the registry.
pub const POLLING_INTERVAL_SECS: u64 = 1;

/// Seconds after which an authorization request is given up.
pub const AUTH_TIMEOUT_SECS: u64 = 300;

/// Where the flow stands.
#[derive(Debug)]
pub enum AuthStage {
    /// The request is being opened.
    Created,
    /// The request is open and undecided.
    AwaitingApproval,
    /// The user approved: the token to act with.
    Approved { token: String },
    /// The user refused.
    Denied,
    /// The user did not decide in time.
    TimedOut,
    /// A request to the registry failed, or its answer broke the protocol.
    Failed(PublishingError),
}

/// The flow: its stage, and the open request once there is one.
#[derive(Debug)]
pub struct AuthFlow {
    pub stage: AuthStage,
    pub request: Option<AuthRequestResponse>,
}

/// What came of the action that the flow asked for.
pub enum AuthEvent {
    /// The answer to the opening of the request.
    RequestCreated(Result<AuthRequestResponse, ApiRequestError>),
    /// The answer to the question how the request stands.
    Status(Result<AuthRequestStatusResponse, ApiRequestError>),
    /// The wait is over. `elapsed_secs` is the time since the request was
    /// opened.
    Woke { elapsed_secs: u64 },
}

/// What the caller is to do next.
#[derive(Debug, Clone, Copy)]
pub enum AuthAction {
    /// Ask how the request stands.
    Poll,
    /// Wait, then report `Woke`.
    Sleep { seconds: u64 },
    /// The flow is over. Remove the request from the registry; whether that
    /// succeeds does not matter.
    Release,
    /// The flow is over, and there is nothing to remove.
    Stop,
}

impl AuthStage {
    /// The flow is over at this stage.
    pub open spec fn is_terminal(self) -> bool {
        !(self is Created || self is AwaitingApproval)
    }
}

/// The step that the flow `before` takes on `event`: it leaves the flow as
/// `after` and asks for `action`.
pub open spec fn auth_transition(
    before: AuthFlow,
    event: AuthEvent,
    after: AuthFlow,
    action: AuthAction,
) -> bool {
    match (before.stage, event) {
        (AuthStage::Created, AuthEvent::RequestCreated(Ok(response))) => {
            &&& after.stage is AwaitingApproval
            &&& after.request == Some(response)
            &&& action is Poll
        },
        (AuthStage::Created, AuthEvent::RequestCreated(Err(error))) => {
            &&& after.stage matches AuthStage::Failed(failure) && failure@ == failure_of(error)
            &&& after.request == before.request
            &&& action is Stop
        },
        (AuthStage::AwaitingApproval, AuthEvent::Status(Ok(response))) => {
            &&& after.request == before.request
            &&& match (response.status, response.access_token) {
                (AuthRequestStatus::Pending, _) => after.stage is AwaitingApproval && action
                    == (AuthAction::Sleep { seconds: POLLING_INTERVAL_SECS }),
                (AuthRequestStatus::Approved, Some(token)) => after.stage == (AuthStage::Approved {
                    token,
                }) && action is Release,
                (AuthRequestStatus::Approved, None) => {
                    &&& after.stage matches AuthStage::Failed(failure)
                    &&& failure@ == PublishingErrorView::ApiError(
                        "No access token provided in the approval response."@,
                    )
                    &&& action is Release
                },
                (AuthRequestStatus::Denied, _) => after.stage is Denied && action is Release,
            }
        },
        (AuthStage::AwaitingApproval, AuthEvent::Status(Err(error))) => {
            &&& after.stage matches AuthStage::Failed(failure) && failure@ == failure_of(error)
            &&& after.request == before.request
            &&& action is Release
        },
        (AuthStage::AwaitingApproval, AuthEvent::Woke { elapsed_secs }) => {
            &&& after.request == before.request
            &&& if elapsed_secs > AUTH_TIMEOUT_SECS {
                after.stage is TimedOut && action is Release
            } else {
                after.stage is AwaitingApproval && action is Poll
            }
        },
        _ => after == before && action is Stop,
    }
}

/// The outcome of a flow at `stage`, where it is over.
pub open spec fn auth_outcome(stage: AuthStage) -> Option<Result<Seq<char>, PublishingErrorView>> {
    match stage {
        AuthStage::Created | AuthStage::AwaitingApproval => None,
        AuthStage::Approved { token } => Some(Ok(token@)),
        AuthStage::Denied => Some(Err(PublishingErrorView::AuthDenied)),
        AuthStage::TimedOut => Some(Err(PublishingErrorView::TimedOut(Wait::Authorization))),
        AuthStage::Failed(failure) => Some(Err(failure@)),
    }
}

/// A flow's outcome with its texts as plain values.
pub open spec fn outcome_view(outcome: Option<Result<String, PublishingError>>) -> Option<
    Result<Seq<char>, PublishingErrorView>,
> {
    match outcome {
        None => None,
        Some(Ok(token)) => Some(Ok(token@)),
        Some(Err(failure)) => Some(Err(failure@)),
    }
}

impl AuthFlow {
    /// A flow whose request is being opened. The caller opens the request
    /// and reports `RequestCreated`.
    pub fn new() -> (flow: Self)
        ensures
            flow.stage is Created,
            flow.request is None,
    {
        AuthFlow { stage: AuthStage::Created, request: None }
    }

    /// Takes the flow one step further on `event`. An event that the flow
    /// did not ask for changes nothing and stops the caller.
    pub fn step(self, event: AuthEvent) -> (next: (AuthFlow, AuthAction))
        ensures
            auth_transition(self, event, next.0, next.1),
    {
        match (self.stage, event) {
            (AuthStage::Created, AuthEvent::RequestCreated(Ok(response))) => (
                AuthFlow { stage: AuthStage::AwaitingApproval, request: Some(response) },
                AuthAction::Poll,
            ),
            (AuthStage::Created, AuthEvent::RequestCreated(Err(error))) => (
                AuthFlow {
                    stage: AuthStage::Failed(PublishingError::from(&error)),
                    request: self.request,
                },
                AuthAction::Stop,
            ),
            (AuthStage::AwaitingApproval, AuthEvent::Status(Ok(response))) => {
                match (response.status, response.access_token) {
                    (AuthRequestStatus::Pending, _) => (
                        AuthFlow { stage: AuthStage::AwaitingApproval, request: self.request },
                        AuthAction::Sleep { seconds: POLLING_INTERVAL_SECS },
                    ),
                    (AuthRequestStatus::Approved, Some(token)) => (
                        AuthFlow { stage: AuthStage::Approved { token }, request: self.request },
                        AuthAction::Release,
                    ),
                    (AuthRequestStatus::Approved, None) => (
                        AuthFlow {
                            stage: AuthStage::Failed(
                                PublishingError::ApiError(
                                    String::from_str(
                                        "No access token provided in the approval response.",
                                    ),
                                ),
                            ),
                            request: self.request,
                        },
                        AuthAction::Release,
                    ),
                    (AuthRequestStatus::Denied, _) => (
                        AuthFlow { stage: AuthStage::Denied, request: self.request },
                        AuthAction::Release,
                    ),
                }
            },
            (AuthStage::AwaitingApproval, AuthEvent::Status(Err(error))) => (
                AuthFlow {
                    stage: AuthStage::Failed(PublishingError::from(&error)),
                    request: self.request,
                },
                AuthAction::Release,
            ),
            (AuthStage::AwaitingApproval, AuthEvent::Woke { elapsed_secs }) => {
                if elapsed_secs > AUTH_TIMEOUT_SECS {
                    (AuthFlow { stage: AuthStage::TimedOut, request: self.request }, AuthAction::Release)
                } else {
                    (
                        AuthFlow { stage: AuthStage::AwaitingApproval, request: self.request },
                        AuthAction::Poll,
                    )
                }
            },
            (stage, _) => (AuthFlow { stage, request: self.request }, AuthAction::Stop),
        }
    }

    /// The flow's outcome: the token, or why there is none. `None` while
    /// the flow is not over.
    pub fn into_outcome(self) -> (outcome: Option<Result<String, PublishingError>>)
        ensures
            outcome_view(outcome) == auth_outcome(self.stage),
    {
        match self.stage {
            AuthStage::Created => None,
            AuthStage::AwaitingApproval => None,
            AuthStage::Approved { token } => Some(Ok(token)),
            AuthStage::Denied => Some(Err(PublishingError::AuthDenied)),
            AuthStage::TimedOut => Some(Err(PublishingError::TimedOut(Wait::Authorization))),
            AuthStage::Failed(failure) => Some(Err(failure)),
        }
    }
}

/// `flows`, `events` and `actions` tell of a run: each event takes the flow
/// before it to the flow behind it and asks for the action of its place.
pub open spec fn auth_run(flows: Seq<AuthFlow>, events: Seq<AuthEvent>, actions: Seq<AuthAction>) -> bool {
    &&& flows.len() == events.len() + 1
    &&& actions.len() == events.len()
    &&& forall|i: int|
        0 <= i < events.len() ==> auth_transition(
            flows[i],
            #[trigger] events[i],
            flows[i + 1],
            actions[i],
        )
}

/// The registry answers that the request is undecided.
pub open spec fn answers_pending(event: AuthEvent) -> bool {
    event matches AuthEvent::Status(Ok(response)) && response.status is Pending
}

/// The wait ends within the flow's time.
pub open spec fn wakes_in_time(event: AuthEvent) -> bool {
    event matches AuthEvent::Woke { elapsed_secs } && elapsed_secs <= AUTH_TIMEOUT_SECS
}

/// The first `2 * rounds` events are `rounds` rounds of an undecided answer
/// and a wait that ends in time.
pub open spec fn waits_pending(events: Seq<AuthEvent>, rounds: nat) -> bool {
    &&& events.len() >= 2 * rounds
    &&& forall|i: int|
        0 <= i < rounds ==> answers_pending(#[trigger] events[2 * i]) && wakes_in_time(
            events[2 * i + 1],
        )
}

/// While the registry answers that the request is undecided and the time is
/// not out, the flow stays where it is, sleeps one interval after each
/// answer and asks again after each wait.
pub proof fn lemma_pending_rounds(
    flows: Seq<AuthFlow>,
    events: Seq<AuthEvent>,
    actions: Seq<AuthAction>,
    rounds: nat,
)
    requires
        auth_run(flows, events, actions),
        flows[0].stage is AwaitingApproval,
        waits_pending(events, rounds),
    ensures
        forall|k: int| 0 <= k <= 2 * rounds ==> (#[trigger] flows[k]).stage is AwaitingApproval,
        forall|k: int| 0 <= k <= 2 * rounds ==> (#[trigger] flows[k]).request == flows[0].request,
        forall|i: int|
            0 <= i < rounds ==> #[trigger] actions[2 * i] == (AuthAction::Sleep {
                seconds: POLLING_INTERVAL_SECS,
            }) && actions[2 * i + 1] is Poll,
    decreases rounds,
{
    if rounds > 0 {
        let fewer = (rounds - 1) as nat;
        lemma_pending_rounds(flows, events, actions, fewer);
        let at = 2 * fewer as int;
        assert(answers_pending(events[at]) && wakes_in_time(events[at + 1]));
        assert(auth_transition(flows[at], events[at], flows[at + 1], actions[at]));
        assert(auth_transition(flows[at + 1], events[at + 1], flows[at + 2], actions[at + 1]));
    }
}

/// After any number of undecided rounds, an approval with a token ends the
/// flow with that token, and a denial ends it as denied. The request is
/// released either way.
pub proof fn lemma_decision_after_pending(
    flows: Seq<AuthFlow>,
    events: Seq<AuthEvent>,
    actions: Seq<AuthAction>,
    rounds: nat,
)
    requires
        auth_run(flows, events, actions),
        flows[0].stage is AwaitingApproval,
        waits_pending(events, rounds),
        events.len() == 2 * rounds + 1,
        events[2 * rounds as int] matches AuthEvent::Status(Ok(response)) && !(response.status is Pending),
    ensures
        actions[2 * rounds as int] is Release,
        events[2 * rounds as int] matches AuthEvent::Status(Ok(response)) && match (
            response.status,
            response.access_token,
        ) {
            (AuthRequestStatus::Approved, Some(token)) => auth_outcome(flows.last().stage) == Some(
                Ok::<Seq<char>, PublishingErrorView>(token@),
            ),
            (AuthRequestStatus::Approved, None) => auth_outcome(flows.last().stage) == Some(
                Err::<Seq<char>, PublishingErrorView>(
                    PublishingErrorView::ApiError(
                        "No access token provided in the approval response."@,
                    ),
                ),
            ),
            _ => auth_outcome(flows.last().stage) == Some(
                Err::<Seq<char>, PublishingErrorView>(PublishingErrorView::AuthDenied),
            ),
        },
{
    lemma_pending_rounds(flows, events, actions, rounds);
}

/// After any number of undecided rounds, a wait that ends past the flow's
/// time ends the flow as timed out, whatever the registry said last.
pub proof fn lemma_timeout_after_pending(
    flows: Seq<AuthFlow>,
    events: Seq<AuthEvent>,
    actions: Seq<AuthAction>,
    rounds: nat,
)
    requires
        auth_run(flows, events, actions),
        flows[0].stage is AwaitingApproval,
        waits_pending(events, rounds),
        events.len() == 2 * rounds + 2,
        answers_pending(events[2 * rounds as int]),
        events[2 * rounds as int + 1] matches AuthEvent::Woke { elapsed_secs } && elapsed_secs
            > AUTH_TIMEOUT_SECS,
    ensures
        actions.last() is Release,
        auth_outcome(flows.last().stage) == Some(
            Err::<Seq<char>, PublishingErrorView>(PublishingErrorView::TimedOut(Wait::Authorization)),
        ),
{
    lemma_pending_rounds(flows, events, actions, rounds);
}

/// A well-formed answer ends the flow unless the request is undecided: an
/// approval gives its token, a denial is a denial.
pub proof fn lemma_well_formed_answer(
    before: AuthFlow,
    response: AuthRequestStatusResponse,
    after: AuthFlow,
    action: AuthAction,
)
    requires
        before.stage is AwaitingApproval,
        response.well_formed(),
        auth_transition(before, AuthEvent::Status(Ok(response)), after, action),
    ensures
        response.status is Pending ==> after.stage is AwaitingApproval,
        response.status is Approved ==> auth_outcome(after.stage) == Some(
            Ok::<Seq<char>, PublishingErrorView>(response.access_token->0@),
        ),
        response.status is Denied ==> auth_outcome(after.stage) == Some(
            Err::<Seq<char>, PublishingErrorView>(PublishingErrorView::AuthDenied),
        ),
{
}

/// A flow comes by a token in one way only: the registry answers that the
/// request is approved, and the answer holds that token.
pub proof fn lemma_token_needs_approval(
    before: AuthFlow,
    event: AuthEvent,
    after: AuthFlow,
    action: AuthAction,
)
    requires
        auth_transition(before, event, after, action),
        !(before.stage is Approved),
        after.stage is Approved,
    ensures
        before.stage is AwaitingApproval,
        event matches AuthEvent::Status(Ok(response)) && response.status is Approved
            && response.access_token == Some(after.stage->token),
{
}

/// A flow that is over takes no further step: whatever the event, the flow
/// stays as it is and the caller is stopped.
pub proof fn lemma_terminal_stage_stays(
    before: AuthFlow,
    event: AuthEvent,
    after: AuthFlow,
    action: AuthAction,
)
    requires
        before.stage.is_terminal(),
        auth_transition(before, event, after, action),
    ensures
        after == before,
        action is Stop,
{
}

/// A flow has an outcome when it is over, and not before.
pub proof fn lemma_outcome_needs_terminal_stage(stage: AuthStage)
    ensures
        stage.is_terminal() <==> auth_outcome(stage) is Some,
{
}

} // verus!
