//! Issues found while a package is put together for publishing.

use vstd::prelude::*;

verus! {

/// How grave an issue is.
#[derive(Debug, Clone, Copy)]
pub enum PublishingIssueType {
    Error,
    Warning,
}

/// One issue: how grave it is, and what it says.
#[derive(Debug)]
pub struct PublishingIssue {
    pub issue_type: PublishingIssueType,
    pub message: String,
}

/// The issues found so far, in the order in which they were found.
#[derive(Debug)]
pub struct PublishingIssues {
    pub message: Vec<PublishingIssue>,
}

/// The warnings among `issues`, in their order.
pub open spec fn warnings_of(issues: Seq<PublishingIssue>) -> Seq<PublishingIssue>
    decreases issues.len(),
{
    if issues.len() == 0 {
        Seq::empty()
    } else if issues.last().issue_type is Warning {
        warnings_of(issues.drop_last()).push(issues.last())
    } else {
        warnings_of(issues.drop_last())
    }
}

/// The errors among `issues`, in their order.
pub open spec fn errors_of(issues: Seq<PublishingIssue>) -> Seq<PublishingIssue>
    decreases issues.len(),
{
    if issues.len() == 0 {
        Seq::empty()
    } else if issues.last().issue_type is Error {
        errors_of(issues.drop_last()).push(issues.last())
    } else {
        errors_of(issues.drop_last())
    }
}

/// `issues` as they are shown: the warnings first, then the errors, each
/// group in the order in which its issues were found.
pub open spec fn sorted(issues: Seq<PublishingIssue>) -> Seq<PublishingIssue> {
    warnings_of(issues) + errors_of(issues)
}

impl View for PublishingIssues {
    type V = Seq<PublishingIssue>;

    open spec fn view(&self) -> Seq<PublishingIssue> {
        self.message@
    }
}

impl PublishingIssues {
    /// No issue yet.
    pub fn new() -> (issues: Self)
        ensures
            issues@ == Seq::<PublishingIssue>::empty(),
    {
        Self { message: Vec::new() }
    }

    /// Adds an issue at the end.
    pub fn add_issue(&mut self, issue_type: PublishingIssueType, message: String)
        ensures
            final(self)@ == old(self)@.push(PublishingIssue { issue_type, message }),
    {
        self.message.push(PublishingIssue { issue_type, message });
    }

    /// Adds an error at the end.
    pub fn add_error(&mut self, message: String)
        ensures
            final(self)@ == old(self)@.push(
                PublishingIssue { issue_type: PublishingIssueType::Error, message },
            ),
    {
        self.add_issue(PublishingIssueType::Error, message);
    }

    /// Adds a warning at the end.
    pub fn add_warning(&mut self, message: String)
        ensures
            final(self)@ == old(self)@.push(
                PublishingIssue { issue_type: PublishingIssueType::Warning, message },
            ),
    {
        self.add_issue(PublishingIssueType::Warning, message);
    }

    /// Whether an error is among the issues.
    pub fn has_errors(&self) -> (found: bool)
        ensures
            found == exists|i: int| 0 <= i < self@.len() && (#[trigger] self@[i]).issue_type is Error,
    {
        let mut i: usize = 0;
        while i < self.message.len()
            invariant
                i <= self.message.len(),
                forall|k: int| 0 <= k < i ==> !((#[trigger] self@[k]).issue_type is Error),
            decreases self.message.len() - i,
        {
            match self.message[i].issue_type {
                PublishingIssueType::Error => {
                    return true;
                },
                PublishingIssueType::Warning => {},
            }
            i = i + 1;
        }
        false
    }

    /// The issues in the order in which they are shown: warnings before
    /// errors, and within each group the order in which they were found.
    pub fn get_sorted_issues(&self) -> (shown: Vec<&PublishingIssue>)
        ensures
            shown@.len() == sorted(self@).len(),
            forall|i: int| 0 <= i < shown@.len() ==> *(#[trigger] shown@[i]) == sorted(self@)[i],
    {
        let mut shown: Vec<&PublishingIssue> = Vec::new();
        let mut i: usize = 0;
        while i < self.message.len()
            invariant
                i <= self.message.len(),
                shown@.len() == warnings_of(self@.take(i as int)).len(),
                forall|k: int|
                    0 <= k < shown@.len() ==> *(#[trigger] shown@[k]) == warnings_of(
                        self@.take(i as int),
                    )[k],
            decreases self.message.len() - i,
        {
            proof {
                assert(self@.take(i + 1).drop_last() =~= self@.take(i as int));
            }
            match self.message[i].issue_type {
                PublishingIssueType::Warning => {
                    shown.push(&self.message[i]);
                },
                PublishingIssueType::Error => {},
            }
            i = i + 1;
        }
        assert(self@.take(i as int) == self@);
        let mut j: usize = 0;
        while j < self.message.len()
            invariant
                j <= self.message.len(),
                shown@.len() == warnings_of(self@).len() + errors_of(self@.take(j as int)).len(),
                forall|k: int|
                    0 <= k < shown@.len() ==> *(#[trigger] shown@[k]) == (warnings_of(self@)
                        + errors_of(self@.take(j as int)))[k],
            decreases self.message.len() - j,
        {
            proof {
                assert(self@.take(j + 1).drop_last() =~= self@.take(j as int));
            }
            match self.message[j].issue_type {
                PublishingIssueType::Error => {
                    shown.push(&self.message[j]);
                },
                PublishingIssueType::Warning => {},
            }
            j = j + 1;
        }
        shown
    }
}

} // verus!
