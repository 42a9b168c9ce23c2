//! What a run tells the user, line by line.

use vstd::prelude::*;
use crate::api::ApiError;
use crate::issues::{sorted, PublishingIssue, PublishingIssueType, PublishingIssues};
use crate::outcome::{api_errors, PublishingError, PublishingErrorView, Wait};
use crate::text::joined;
use crate::validate::{messages, ValidationError};

verus! {

/// How a line is marked.
#[derive(Debug, Clone, Copy)]
pub enum ReportKind {
    Success,
    Warning,
    Error,
}

/// One line for the user.
#[derive(Debug)]
pub struct ReportLine {
    pub kind: ReportKind,
    pub text: String,
}

impl View for ReportLine {
    type V = (ReportKind, Seq<char>);

    open spec fn view(&self) -> (ReportKind, Seq<char>) {
        (self.kind, self.text@)
    }
}

/// The lines of `report`, one for one.
pub open spec fn shown(report: Seq<ReportLine>) -> Seq<(ReportKind, Seq<char>)> {
    Seq::new(report.len(), |i: int| report[i]@)
}

/// Each of `items` as an error line that starts with `prefix`.
pub open spec fn error_lines(prefix: Seq<char>, items: Seq<Seq<char>>) -> Seq<
    (ReportKind, Seq<char>),
> {
    Seq::new(items.len(), |i: int| (ReportKind::Error, prefix + items[i]))
}

/// What is said of a validation that found `found`.
pub open spec fn validation_lines(found: Seq<Seq<char>>) -> Seq<(ReportKind, Seq<char>)> {
    if found.len() == 0 {
        seq![(ReportKind::Success, "Package validation passed successfully."@)]
    } else {
        seq![(ReportKind::Error, "Package validation failed:"@)] + error_lines(" - "@, found)
    }
}

/// The line for one issue.
pub open spec fn issue_line(issue: PublishingIssue) -> (ReportKind, Seq<char>) {
    (
        match issue.issue_type {
            PublishingIssueType::Error => ReportKind::Error,
            PublishingIssueType::Warning => ReportKind::Warning,
        },
        issue.message@,
    )
}

/// The lines for `issues`: the warnings first, then the errors.
pub open spec fn issue_lines(issues: Seq<PublishingIssue>) -> Seq<(ReportKind, Seq<char>)> {
    Seq::new(sorted(issues).len(), |i: int| issue_line(sorted(issues)[i]))
}

/// One error of the registry in words: its field and a colon first, where
/// it has a field.
pub open spec fn described(error: (Seq<char>, Option<Seq<char>>)) -> Seq<char> {
    match error.1 {
        Some(field) => field + ": "@ + error.0,
        None => error.0,
    }
}

/// The errors in words, with `, ` between them.
pub open spec fn described_all(errors: Seq<(Seq<char>, Option<Seq<char>>)>) -> Seq<char>
    decreases errors.len(),
{
    if errors.len() == 0 {
        Seq::empty()
    } else if errors.len() == 1 {
        described(errors[0])
    } else {
        described_all(errors.drop_last()) + ", "@ + described(errors.last())
    }
}

/// What is said of the way publishing ended.
pub open spec fn outcome_lines(status: Result<(), PublishingErrorView>) -> Seq<
    (ReportKind, Seq<char>),
> {
    match status {
        Ok(_) => seq![(ReportKind::Success, "Package published successfully."@)],
        Err(PublishingErrorView::AuthDenied) => seq![
            (ReportKind::Error, "App request was denied, stopping."@),
        ],
        Err(PublishingErrorView::NetworkError(message)) => seq![
            (ReportKind::Error, "Network error: "@ + message),
        ],
        Err(PublishingErrorView::ApiError(message)) => seq![
            (ReportKind::Error, "API error: "@ + message),
        ],
        Err(PublishingErrorView::AuthError(message)) => seq![
            (ReportKind::Error, "API error: "@ + message),
        ],
        Err(PublishingErrorView::ValidationErrors(errors)) => seq![
            (ReportKind::Error, "API error: "@ + described_all(errors)),
        ],
        Err(PublishingErrorView::PublishJobFailed(reasons)) => seq![
            (ReportKind::Error, "Publishing job failed:"@),
        ] + error_lines("- "@, reasons),
        Err(PublishingErrorView::TimedOut(Wait::Authorization)) => seq![
            (ReportKind::Error, "API error: Authorization request timed out"@),
        ],
        Err(PublishingErrorView::TimedOut(Wait::PublishJob)) => seq![
            (ReportKind::Error, "API error: Publishing job timed out"@),
        ],
    }
}

/// The status with its texts as plain values.
pub open spec fn status_view(status: Result<(), PublishingError>) -> Result<
    (),
    PublishingErrorView,
> {
    match status {
        Ok(_) => Ok(()),
        Err(failure) => Err(failure@),
    }
}

fn one_line(kind: ReportKind, text: String) -> (report: Vec<ReportLine>)
    ensures
        shown(report@) == seq![(kind, text@)],
        report@.len() == 1,
        report@[0]@ == (kind, text@),
{
    let mut report: Vec<ReportLine> = Vec::new();
    report.push(ReportLine { kind, text });
    report
}

/// The lines that tell what a validation found.
pub fn validation_report(results: &Vec<ValidationError>) -> (report: Vec<ReportLine>)
    ensures
        shown(report@) == validation_lines(messages(results@)),
{
    if results.len() == 0 {
        return one_line(
            ReportKind::Success,
            String::from_str("Package validation passed successfully."),
        );
    }
    let mut report = one_line(ReportKind::Error, String::from_str("Package validation failed:"));
    let mut i: usize = 0;
    while i < results.len()
        invariant
            i <= results.len(),
            report@.len() == i + 1,
            report@[0]@ == (ReportKind::Error, "Package validation failed:"@),
            forall|k: int|
                0 <= k < i ==> (#[trigger] report@[k + 1])@ == (
                    ReportKind::Error,
                    " - "@ + results@[k]@,
                ),
        decreases results.len() - i,
    {
        report.push(
            ReportLine {
                kind: ReportKind::Error,
                text: joined(" - ", results[i].message.as_str()),
            },
        );
        i = i + 1;
    }
    assert(shown(report@) =~= validation_lines(messages(results@))) by {
        let expected = validation_lines(messages(results@));
        assert forall|k: int| 0 <= k < expected.len() implies shown(report@)[k] == expected[k] by {
            if k > 0 {
                assert(report@[(k - 1) + 1]@ == (
                    ReportKind::Error,
                    " - "@ + results@[k - 1]@,
                ));
            }
        }
    }
    report
}

/// The code with which a validation that found `found` ends: 0 where it
/// found nothing, 1 where there are issues.
pub open spec fn validation_code(found: Seq<Seq<char>>) -> int {
    if found.len() == 0 {
        0
    } else {
        1
    }
}

/// The exit code of a validation that found `results`.
pub fn validation_exit_code(results: &Vec<ValidationError>) -> (code: i32)
    ensures
        code == validation_code(messages(results@)),
{
    if results.len() == 0 {
        0
    } else {
        1
    }
}

/// The lines that show `issues`: the warnings first, then the errors.
pub fn issue_report(issues: &PublishingIssues) -> (report: Vec<ReportLine>)
    ensures
        shown(report@) == issue_lines(issues@),
{
    let ordered = issues.get_sorted_issues();
    let mut report: Vec<ReportLine> = Vec::new();
    let mut i: usize = 0;
    while i < ordered.len()
        invariant
            i <= ordered.len(),
            report@.len() == i,
            ordered@.len() == sorted(issues@).len(),
            forall|k: int| 0 <= k < ordered@.len() ==> *(#[trigger] ordered@[k]) == sorted(issues@)[k],
            forall|k: int| 0 <= k < i ==> (#[trigger] report@[k])@ == issue_line(sorted(issues@)[k]),
        decreases ordered.len() - i,
    {
        let issue = ordered[i];
        let kind = match issue.issue_type {
            PublishingIssueType::Error => ReportKind::Error,
            PublishingIssueType::Warning => ReportKind::Warning,
        };
        report.push(ReportLine { kind, text: issue.message.clone() });
        i = i + 1;
    }
    report
}

/// One error of the registry in words.
fn describe(error: &ApiError) -> (text: String)
    ensures
        text@ == described(api_errors(seq![*error])[0]),
{
    match &error.field {
        Some(field) => {
            let mut text = joined(field.as_str(), ": ");
            text.append(error.message.as_str());
            text
        },
        None => error.message.clone(),
    }
}

/// The errors of the registry in words, with `, ` between them.
fn describe_all(errors: &Vec<ApiError>) -> (text: String)
    ensures
        text@ == described_all(api_errors(errors@)),
{
    let mut text = String::new();
    let mut i: usize = 0;
    while i < errors.len()
        invariant
            i <= errors.len(),
            text@ == described_all(api_errors(errors@).take(i as int)),
        decreases errors.len() - i,
    {
        proof {
            let all = api_errors(errors@);
            assert(all.take(i + 1).drop_last() =~= all.take(i as int));
        }
        if i > 0 {
            text.append(", ");
        }
        text.append(describe(&errors[i]).as_str());
        i = i + 1;
    }
    assert(api_errors(errors@).take(i as int) == api_errors(errors@));
    text
}

/// The lines that tell how publishing ended.
pub fn outcome_report(status: &Result<(), PublishingError>) -> (report: Vec<ReportLine>)
    ensures
        shown(report@) == outcome_lines(status_view(*status)),
{
    match status {
        Ok(_) => one_line(ReportKind::Success, String::from_str("Package published successfully.")),
        Err(PublishingError::AuthDenied) => one_line(
            ReportKind::Error,
            String::from_str("App request was denied, stopping."),
        ),
        Err(PublishingError::NetworkError(message)) => one_line(
            ReportKind::Error,
            joined("Network error: ", message.as_str()),
        ),
        Err(PublishingError::ApiError(message)) => one_line(
            ReportKind::Error,
            joined("API error: ", message.as_str()),
        ),
        Err(PublishingError::AuthError(message)) => one_line(
            ReportKind::Error,
            joined("API error: ", message.as_str()),
        ),
        Err(PublishingError::ValidationErrors(errors)) => one_line(
            ReportKind::Error,
            joined("API error: ", describe_all(errors).as_str()),
        ),
        Err(PublishingError::TimedOut(Wait::Authorization)) => one_line(
            ReportKind::Error,
            String::from_str("API error: Authorization request timed out"),
        ),
        Err(PublishingError::TimedOut(Wait::PublishJob)) => one_line(
            ReportKind::Error,
            String::from_str("API error: Publishing job timed out"),
        ),
        Err(PublishingError::PublishJobFailed(reasons)) => {
            let mut report = one_line(
                ReportKind::Error,
                String::from_str("Publishing job failed:"),
            );
            let mut i: usize = 0;
            while i < reasons.len()
                invariant
                    i <= reasons.len(),
                    report@.len() == i + 1,
                    report@[0]@ == (ReportKind::Error, "Publishing job failed:"@),
                    forall|k: int|
                        0 <= k < i ==> (#[trigger] report@[k + 1])@ == (
                            ReportKind::Error,
                            "- "@ + reasons@[k]@,
                        ),
                decreases reasons.len() - i,
            {
                report.push(
                    ReportLine {
                        kind: ReportKind::Error,
                        text: joined("- ", reasons[i].as_str()),
                    },
                );
                i = i + 1;
            }
            assert(shown(report@) =~= outcome_lines(status_view(*status))) by {
                let expected = outcome_lines(status_view(*status));
                assert forall|k: int| 0 <= k < expected.len() implies shown(report@)[k]
                    == expected[k] by {
                    if k > 0 {
                        assert(report@[(k - 1) + 1]@ == (
                            ReportKind::Error,
                            "- "@ + reasons@[k - 1]@,
                        ));
                    }
                }
            }
            report
        },
    }
}

} // verus!
