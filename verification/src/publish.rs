//! Getting a package ready for publishing: which files go into the archive,
//! and what is done with the archive once it is validated.

use vstd::prelude::*;
use crate::common::{file_stem, texts, BooPackageDefinition, DefinitionView};
use crate::issues::{PublishingIssue, PublishingIssueType, PublishingIssues};
use crate::manifest::{manifest_in, parse_manifest};
use crate::name::{name_fault, validate_package_name};
use crate::text::{joined, joined3};
use crate::validate::ValidationError;

verus! {

/// What the user asked of `publish`.
#[derive(Debug, Clone, Copy)]
pub struct PublishArgs {
    /// Only say whether the package is ready.
    pub check: bool,
    /// Write the archive to a file in place of uploading it.
    pub offline: bool,
}

/// The manifest of the working directory as it was found.
pub enum ManifestSource {
    /// There is no manifest.
    Missing,
    /// The manifest could not be read, with the reason.
    Unreadable(String),
    /// The manifest's text.
    Text(String),
}

/// What came of looking for the files of one pattern.
pub enum PatternMatches {
    /// The files that match, as paths. Directories are left out.
    Matched(Vec<String>),
    /// The pattern is malformed, with the reason.
    Invalid(String),
}

/// A package that is being put together: its definition, the issues found
/// so far and the files that go into its archive, each once.
pub struct PublishingData {
    pub package: BooPackageDefinition,
    pub issues: PublishingIssues,
    pub files: Vec<String>,
}

/// A package whose archive was validated.
pub struct VerifiedPackage {
    pub package: BooPackageDefinition,
    pub buffer: Vec<u8>,
}

/// The definition in the manifest of the working directory, or what is said
/// where there is none.
pub open spec fn loaded(source: ManifestSource) -> Result<DefinitionView, Seq<char>> {
    match source {
        ManifestSource::Missing => Err(
            "'boo.json' file not found. Please run `boo init` first."@,
        ),
        ManifestSource::Unreadable(reason) => Err("Failed to read boo.json: "@ + reason@),
        ManifestSource::Text(text) => match manifest_in(text@) {
            Err(reason) => Err("Failed to parse boo.json: "@ + reason),
            Ok(definition) => Ok(definition),
        },
    }
}

/// Reads the definition of the package in the working directory.
pub fn load_package_definition(source: &ManifestSource) -> (definition: Result<
    BooPackageDefinition,
    String,
>)
    ensures
        match definition {
            Ok(definition) => loaded(*source) == Ok::<DefinitionView, Seq<char>>(definition@),
            Err(message) => loaded(*source) == Err::<DefinitionView, Seq<char>>(message@),
        },
{
    match source {
        ManifestSource::Missing => Err(
            String::from_str("'boo.json' file not found. Please run `boo init` first."),
        ),
        ManifestSource::Unreadable(reason) => Err(
            joined("Failed to read boo.json: ", reason.as_str()),
        ),
        ManifestSource::Text(text) => match parse_manifest(text.as_str()) {
            Err(reason) => Err(joined("Failed to parse boo.json: ", reason.as_str())),
            Ok(definition) => Ok(definition),
        },
    }
}

/// No text stands twice in `files`.
pub open spec fn distinct(files: Seq<Seq<char>>) -> bool {
    forall|i: int, j: int| 0 <= i < j < files.len() ==> files[i] != files[j]
}

/// `files`, then each text of `more` that is not yet there, each once and
/// in the order of its first place.
pub open spec fn merged(files: Seq<Seq<char>>, more: Seq<Seq<char>>) -> Seq<Seq<char>>
    decreases more.len(),
{
    if more.len() == 0 {
        files
    } else if merged(files, more.drop_last()).contains(more.last()) {
        merged(files, more.drop_last())
    } else {
        merged(files, more.drop_last()).push(more.last())
    }
}

/// The issue that the outcome of a pattern gives rise to, where it gives
/// rise to one: a warning for a pattern without files, an error for a
/// malformed one.
pub open spec fn pattern_issue(pattern: Seq<char>, outcome: PatternMatches) -> Option<
    (PublishingIssueType, Seq<char>),
> {
    match outcome {
        PatternMatches::Matched(found) => if found@.len() == 0 {
            Some((PublishingIssueType::Warning, "No files matched the pattern '"@ + pattern + "'"@))
        } else {
            None
        },
        PatternMatches::Invalid(reason) => Some(
            (
                PublishingIssueType::Error,
                "Invalid GLOB pattern '"@ + pattern + "': "@ + reason@,
            ),
        ),
    }
}

/// `after` is `before`, with `issue` added at the end where there is one.
pub open spec fn reported(
    before: Seq<PublishingIssue>,
    issue: Option<(PublishingIssueType, Seq<char>)>,
    after: Seq<PublishingIssue>,
) -> bool {
    match issue {
        Some((issue_type, message)) => {
            &&& after.len() == before.len() + 1
            &&& after.drop_last() == before
            &&& after.last().issue_type == issue_type
            &&& after.last().message@ == message
        },
        None => after == before,
    }
}

/// The files that the outcome of a pattern adds.
pub open spec fn pattern_files(outcome: PatternMatches) -> Seq<Seq<char>> {
    match outcome {
        PatternMatches::Matched(found) => texts(found@),
        PatternMatches::Invalid(_) => Seq::empty(),
    }
}

/// Merging keeps what is there, adds no text twice, and holds exactly the
/// texts of both.
pub proof fn lemma_merged(files: Seq<Seq<char>>, more: Seq<Seq<char>>)
    requires
        distinct(files),
    ensures
        distinct(merged(files, more)),
        files.len() <= merged(files, more).len(),
        forall|i: int| 0 <= i < files.len() ==> merged(files, more)[i] == files[i],
        forall|text: Seq<char>|
            merged(files, more).contains(text) <==> files.contains(text) || more.contains(text),
    decreases more.len(),
{
    if more.len() > 0 {
        let shorter = more.drop_last();
        let so_far = merged(files, shorter);
        lemma_merged(files, shorter);
        assert forall|text: Seq<char>|
            merged(files, more).contains(text) <==> files.contains(text) || more.contains(
                text,
            ) by {
            if more.contains(text) {
                let i = choose|i: int| 0 <= i < more.len() && more[i] == text;
                if i < shorter.len() {
                    assert(shorter[i] == text);
                }
            }
            if shorter.contains(text) {
                let i = choose|i: int| 0 <= i < shorter.len() && shorter[i] == text;
                assert(more[i] == text);
            }
            if !so_far.contains(more.last()) {
                let longer = so_far.push(more.last());
                assert(longer[so_far.len() as int] == more.last());
                if so_far.contains(text) {
                    let i = choose|i: int| 0 <= i < so_far.len() && so_far[i] == text;
                    assert(longer[i] == text);
                }
                if longer.contains(text) {
                    let i = choose|i: int| 0 <= i < longer.len() && longer[i] == text;
                    if i < so_far.len() {
                        assert(so_far[i] == text);
                    }
                }
            }
        }
    }
}

impl PublishingData {
    /// The package before any pattern was looked at.
    pub fn new(package: BooPackageDefinition) -> (data: Self)
        ensures
            data.package == package,
            data.issues@ == Seq::<PublishingIssue>::empty(),
            data.files@ == Seq::<String>::empty(),
    {
        PublishingData { package, issues: PublishingIssues::new(), files: Vec::new() }
    }

    fn holds(&self, file: &String) -> (found: bool)
        ensures
            found == texts(self.files@).contains(file@),
    {
        let mut i: usize = 0;
        while i < self.files.len()
            invariant
                i <= self.files.len(),
                forall|k: int| 0 <= k < i ==> texts(self.files@)[k] != file@,
            decreases self.files.len() - i,
        {
            if self.files[i] == *file {
                assert(texts(self.files@)[i as int] == file@);
                return true;
            }
            i = i + 1;
        }
        false
    }

    /// Takes in what came of looking for the files of `pattern`: files that
    /// are not yet among the package's are added, a pattern without files is
    /// warned of, and a malformed pattern is an error.
    pub fn add_matches(&mut self, pattern: &str, outcome: PatternMatches)
        ensures
            final(self).package == old(self).package,
            texts(final(self).files@) == merged(texts(old(self).files@), pattern_files(outcome)),
            reported(old(self).issues@, pattern_issue(pattern@, outcome), final(self).issues@),
    {
        match outcome {
            PatternMatches::Invalid(reason) => {
                let mut message = joined3("Invalid GLOB pattern '", pattern, "': ");
                message.append(reason.as_str());
                self.issues.add_error(message);
                assert(self.issues@.drop_last() =~= old(self).issues@);
            },
            PatternMatches::Matched(found) => {
                if found.len() == 0 {
                    self.issues.add_warning(
                        joined3("No files matched the pattern '", pattern, "'"),
                    );
                    assert(self.issues@.drop_last() =~= old(self).issues@);
                } else {
                    let ghost all = texts(found@);
                    let ghost start = texts(self.files@);
                    let mut i: usize = 0;
                    while i < found.len()
                        invariant
                            i <= found.len(),
                            texts(found@) == all,
                            self.package == old(self).package,
                            self.issues == old(self).issues,
                            texts(self.files@) == merged(start, all.take(i as int)),
                        decreases found.len() - i,
                    {
                        proof {
                            assert(all.take(i + 1).drop_last() =~= all.take(i as int));
                        }
                        if !self.holds(&found[i]) {
                            let file = found[i].clone();
                            self.files.push(file);
                        }
                        i = i + 1;
                    }
                    assert(all.take(i as int) == all);
                }
            },
        }
    }
}

/// What is done with a package once its archive is validated.
#[derive(Debug)]
pub enum PublishPlan {
    /// The archive has validation errors: they are shown, and the run fails.
    Reject,
    /// The user asked for a check only: the run says whether the package is
    /// ready, and fails if it is not.
    Check { ready: bool },
    /// The package has errors: the run fails.
    Abort,
    /// The archive is written to the file of this name.
    WriteArchive { file_name: String },
    /// The archive is uploaded.
    Upload,
}

/// The issues hold an error.
pub open spec fn has_error(issues: Seq<PublishingIssue>) -> bool {
    exists|i: int| 0 <= i < issues.len() && (#[trigger] issues[i]).issue_type is Error
}

/// `plan` is what is done with the package `data` on `args`, where
/// `rejected` says whether its archive has validation errors.
pub open spec fn planned(
    args: PublishArgs,
    data: PublishingData,
    rejected: bool,
    plan: PublishPlan,
) -> bool {
    if rejected {
        plan is Reject
    } else if args.check {
        plan == (PublishPlan::Check { ready: !has_error(data.issues@) })
    } else if has_error(data.issues@) {
        plan is Abort
    } else if args.offline {
        &&& plan matches PublishPlan::WriteArchive { file_name }
        &&& file_name@ == file_stem(data.package.name@) + "-"@ + data.package.version@
            + ".tar.gz"@
    } else {
        plan is Upload
    }
}

/// Decides what is done with a package: an archive with validation errors
/// is rejected whatever was asked; a check reports; a package with errors
/// goes no further; else the archive is written or uploaded, as asked.
pub fn plan_publish(
    args: &PublishArgs,
    data: &PublishingData,
    validation_errors: &Vec<ValidationError>,
) -> (plan: PublishPlan)
    ensures
        planned(*args, *data, validation_errors@.len() > 0, plan),
{
    if validation_errors.len() > 0 {
        return PublishPlan::Reject;
    }
    let has_errors = data.issues.has_errors();
    if args.check {
        return PublishPlan::Check { ready: !has_errors };
    }
    if has_errors {
        return PublishPlan::Abort;
    }
    if args.offline {
        let mut file_name = data.package.package_file_name();
        file_name.append(".tar.gz");
        return PublishPlan::WriteArchive { file_name };
    }
    PublishPlan::Upload
}

impl PublishPlan {
    /// The exit code of a run that ends with this plan; `None` for a plan
    /// whose run goes on.
    pub fn exit_code(&self) -> (code: Option<i32>)
        ensures
            code == match *self {
                PublishPlan::Reject => Some(1i32),
                PublishPlan::Check { ready } => Some(if ready { 0i32 } else { 1i32 }),
                PublishPlan::Abort => Some(1i32),
                PublishPlan::WriteArchive { .. } => None,
                PublishPlan::Upload => None,
            },
    {
        match self {
            PublishPlan::Reject => Some(1),
            PublishPlan::Check { ready } => Some(if *ready { 0 } else { 1 }),
            PublishPlan::Abort => Some(1),
            PublishPlan::WriteArchive { .. } => None,
            PublishPlan::Upload => None,
        }
    }
}

/// The patterns of a new package.
pub open spec fn default_includes() -> Seq<Seq<char>> {
    seq!["**/*.ua"@, "boo.json"@, "README.md"@, "LICENSE"@]
}

/// The definition of a new package named `package_name`, or what is said of
/// a name that breaks a rule.
pub open spec fn new_package(package_name: Seq<char>) -> Result<DefinitionView, Seq<char>> {
    match name_fault(package_name) {
        Some(fault) => Err("Invalid package name '"@ + package_name + "': "@ + fault),
        None => Ok(
            DefinitionView {
                name: package_name,
                version: "0.1.0"@,
                includes: default_includes(),
            },
        ),
    }
}

/// The definition that a new package starts with: the name, if it is
/// acceptable, the first version, and the usual patterns.
pub fn init_package(package_name: &String) -> (definition: Result<BooPackageDefinition, String>)
    ensures
        match definition {
            Ok(definition) => new_package(package_name@) == Ok::<DefinitionView, Seq<char>>(
                definition@,
            ),
            Err(message) => new_package(package_name@) == Err::<DefinitionView, Seq<char>>(
                message@,
            ),
        },
{
    match validate_package_name(package_name) {
        Err(error) => {
            let mut message = joined3("Invalid package name '", package_name.as_str(), "': ");
            message.append(error.message.as_str());
            Err(message)
        },
        Ok(name) => {
            let mut includes: Vec<String> = Vec::new();
            includes.push(String::from_str("**/*.ua"));
            includes.push(String::from_str("boo.json"));
            includes.push(String::from_str("README.md"));
            includes.push(String::from_str("LICENSE"));
            assert(texts(includes@) =~= default_includes());
            Ok(BooPackageDefinition { name, version: String::from_str("0.1.0"), includes })
        },
    }
}

} // verus!
