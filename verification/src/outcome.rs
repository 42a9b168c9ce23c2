//! How publishing can fail.

use vstd::prelude::*;
use crate::api::{ApiError, ApiRequestError, NetworkFailure};
use crate::text::joined3;
use crate::validate::ValidationError;

verus! {

/// What a flow was waiting for when its time ran out.
#[derive(Debug, Clone, Copy)]
pub enum Wait {
    Authorization,
    PublishJob,
}

/// Why publishing stopped. Nothing is tried again: the user runs the command
/// once more.
#[derive(Debug)]
pub enum PublishingError {
    /// No answer came. The message ends with the cause where one is known.
    NetworkError(String),
    /// The registry refused with one error, or its answer was not understood.
    ApiError(String),
    /// The registry refused with several errors.
    ValidationErrors(Vec<ApiError>),
    /// A request that needs a token was made without one.
    AuthError(String),
    /// The user refused the application.
    AuthDenied,
    /// The registry's job failed, with its messages.
    PublishJobFailed(Vec<String>),
    /// The registry took longer than the flow waits.
    TimedOut(Wait),
}

/// A `PublishingError` with its texts as plain values.
pub enum PublishingErrorView {
    NetworkError(Seq<char>),
    ApiError(Seq<char>),
    ValidationErrors(Seq<(Seq<char>, Option<Seq<char>>)>),
    AuthError(Seq<char>),
    AuthDenied,
    PublishJobFailed(Seq<Seq<char>>),
    TimedOut(Wait),
}

/// The text of `field`, where there is one.
pub open spec fn field_text(field: Option<String>) -> Option<Seq<char>> {
    match field {
        Some(text) => Some(text@),
        None => None,
    }
}

/// The messages and fields of `errors`, one for one.
pub open spec fn api_errors(errors: Seq<ApiError>) -> Seq<(Seq<char>, Option<Seq<char>>)> {
    Seq::new(errors.len(), |i: int| (errors[i].message@, field_text(errors[i].field)))
}

/// The texts of `lines`, one for one.
pub open spec fn lines_text(lines: Seq<String>) -> Seq<Seq<char>> {
    Seq::new(lines.len(), |i: int| lines[i]@)
}

impl View for PublishingError {
    type V = PublishingErrorView;

    open spec fn view(&self) -> PublishingErrorView {
        match self {
            PublishingError::NetworkError(message) => PublishingErrorView::NetworkError(message@),
            PublishingError::ApiError(message) => PublishingErrorView::ApiError(message@),
            PublishingError::ValidationErrors(errors) => PublishingErrorView::ValidationErrors(
                api_errors(errors@),
            ),
            PublishingError::AuthError(message) => PublishingErrorView::AuthError(message@),
            PublishingError::AuthDenied => PublishingErrorView::AuthDenied,
            PublishingError::PublishJobFailed(messages) => PublishingErrorView::PublishJobFailed(
                lines_text(messages@),
            ),
            PublishingError::TimedOut(wait) => PublishingErrorView::TimedOut(*wait),
        }
    }
}

/// What is said of a request that got no answer: the failure's message,
/// then `: ` and its cause where one is known.
pub open spec fn network_message(failure: NetworkFailure) -> Seq<char> {
    match failure.source {
        Some(source) => failure.message@ + ": "@ + source@,
        None => failure.message@,
    }
}

/// The outcome that a failed request stands for.
pub open spec fn failure_of(error: ApiRequestError) -> PublishingErrorView {
    match error {
        ApiRequestError::ApiError(message) => PublishingErrorView::ApiError(message@),
        ApiRequestError::AuthError(message) => PublishingErrorView::AuthError(message@),
        ApiRequestError::NetworkError(failure) => PublishingErrorView::NetworkError(
            network_message(failure),
        ),
        ApiRequestError::ValidationErrors(errors) => PublishingErrorView::ValidationErrors(
            api_errors(errors.errors@),
        ),
    }
}

/// The issues of a validation as errors without a field, one for one.
pub open spec fn unnamed_errors(issues: Seq<ValidationError>) -> Seq<(Seq<char>, Option<Seq<char>>)> {
    Seq::new(issues.len(), |i: int| (issues[i]@, None::<Seq<char>>))
}

/// A copy of `errors`.
fn copied(errors: &Vec<ApiError>) -> (copy: Vec<ApiError>)
    ensures
        api_errors(copy@) == api_errors(errors@),
{
    let mut copy: Vec<ApiError> = Vec::new();
    let mut i: usize = 0;
    while i < errors.len()
        invariant
            i <= errors.len(),
            copy.len() == i,
            forall|k: int|
                0 <= k < i ==> (#[trigger] copy@[k]).message@ == errors@[k].message@ && field_text(
                    copy@[k].field,
                ) == field_text(errors@[k].field),
        decreases errors.len() - i,
    {
        let field = match &errors[i].field {
            Some(text) => Some(text.clone()),
            None => None,
        };
        copy.push(ApiError { message: errors[i].message.clone(), field });
        i = i + 1;
    }
    copy
}

impl PublishingError {
    /// The outcome that the issues of a local validation stand for: each
    /// issue is an error without a field.
    pub fn from_validation(issues: &Vec<ValidationError>) -> (outcome: Self)
        ensures
            outcome@ == PublishingErrorView::ValidationErrors(unnamed_errors(issues@)),
    {
        let mut errors: Vec<ApiError> = Vec::new();
        let mut i: usize = 0;
        while i < issues.len()
            invariant
                i <= issues.len(),
                errors.len() == i,
                forall|k: int|
                    0 <= k < i ==> (#[trigger] errors@[k]).message@ == issues@[k]@
                        && errors@[k].field is None,
            decreases issues.len() - i,
        {
            errors.push(ApiError { message: issues[i].message.clone(), field: None });
            i = i + 1;
        }
        assert(api_errors(errors@) =~= unnamed_errors(issues@));
        PublishingError::ValidationErrors(errors)
    }

    /// The outcome that a failed request stands for. Each kind of failure
    /// keeps its kind.
    pub fn from(error: &ApiRequestError) -> (outcome: Self)
        ensures
            outcome@ == failure_of(*error),
    {
        match error {
            ApiRequestError::ApiError(message) => PublishingError::ApiError(message.clone()),
            ApiRequestError::AuthError(message) => PublishingError::AuthError(message.clone()),
            ApiRequestError::NetworkError(failure) => match &failure.source {
                Some(source) => PublishingError::NetworkError(
                    joined3(failure.message.as_str(), ": ", source.as_str()),
                ),
                None => PublishingError::NetworkError(failure.message.clone()),
            },
            ApiRequestError::ValidationErrors(errors) => PublishingError::ValidationErrors(
                copied(&errors.errors),
            ),
        }
    }
}

} // verus!
