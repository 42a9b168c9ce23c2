//! Validation of package archives.

use vstd::prelude::*;
use vstd::seq_lib::{lemma_multiset_commutative, to_multiset_build};
use crate::archive::{
    entry_exists, file_read, inspect_archive, lists, opening_fault, root_entries, taken_from,
    unpack, ArchiveEntry, ArchiveSnapshot, FileRead, FileReadView, UnpackedArchive, LIBRARY_FILE,
    MANIFEST_FILE, PROGRAM_FILE,
};
use crate::common::{BooPackageDefinition, DefinitionView};
use crate::manifest::{manifest_in, parse_manifest};
use crate::name::{name_fault, valid_name, validate_package_name};
use crate::text::{joined, joined3};

verus! {

/// The default ceiling, for the archive and for each file in it: five
/// megabytes of a million bytes each.
pub const DEFAULT_MAX_SIZE: u64 = 5_000_000;

/// The limits an archive is held to, and what its manifest is expected to
/// declare.
#[derive(Debug, Clone)]
pub struct ValidationRules {
    pub compressed_package_max_size: u64,
    pub internal_file_max_size: u64,
    pub expected_name: Option<String>,
    pub expected_version: Option<String>,
}

impl ValidationRules {
    /// The default limits, with nothing expected of the manifest.
    pub fn new() -> (rules: Self)
        ensures
            rules.compressed_package_max_size == DEFAULT_MAX_SIZE,
            rules.internal_file_max_size == DEFAULT_MAX_SIZE,
            rules.expected_name is None,
            rules.expected_version is None,
    {
        ValidationRules {
            compressed_package_max_size: DEFAULT_MAX_SIZE,
            internal_file_max_size: DEFAULT_MAX_SIZE,
            expected_name: None,
            expected_version: None,
        }
    }

    /// The same rules, with `name` expected of the manifest.
    pub fn with_expected_name(self, name: String) -> (rules: Self)
        ensures
            rules == (ValidationRules { expected_name: Some(name), ..self }),
    {
        let mut rules = self;
        rules.expected_name = Some(name);
        rules
    }

    /// The same rules, with `version` expected of the manifest.
    pub fn with_expected_version(self, version: String) -> (rules: Self)
        ensures
            rules == (ValidationRules { expected_version: Some(version), ..self }),
    {
        let mut rules = self;
        rules.expected_version = Some(version);
        rules
    }
}

/// One problem found while validating.
#[derive(Debug, Clone)]
pub struct ValidationError {
    pub message: String,
}

impl View for ValidationError {
    type V = Seq<char>;

    open spec fn view(&self) -> Seq<char> {
        self.message@
    }
}

impl ValidationError {
    /// An error that says `message`.
    pub fn new(message: String) -> (error: Self)
        ensures
            error.message == message,
    {
        ValidationError { message }
    }
}

/// The messages of `errors`, one for one.
pub open spec fn messages(errors: Seq<ValidationError>) -> Seq<Seq<char>> {
    Seq::new(errors.len(), |i: int| errors[i]@)
}

/// The message with which `version` fails to parse as a semantic version.
/// `None` when it is one.
pub uninterp spec fn semver_fault(version: Seq<char>) -> Option<Seq<char>>;

/// `bytes` as `bytesize` writes a size for people to read.
pub uninterp spec fn byte_size_display(bytes: u64) -> Seq<char>;

/// `semver::Version::parse`: whether the text is a semantic version, and the
/// parser's message when it is none. The outcome is a function of the text
/// alone.
#[verifier::external_body]
fn version_fault(version: &str) -> (fault: Option<String>)
    ensures
        match fault {
            Some(message) => semver_fault(version@) == Some(message@),
            None => semver_fault(version@) is None,
        },
{
    semver::Version::parse(version).err().map(|error| error.to_string())
}

/// `bytesize::ByteSize::b` and its `Display`: the size with a unit, as a
/// function of the number alone.
#[verifier::external_body]
fn byte_size_text(bytes: u64) -> (text: String)
    ensures
        text@ == byte_size_display(bytes),
{
    bytesize::ByteSize::b(bytes).to_string()
}

/// The issue of an archive of `size` bytes that is over the ceiling.
pub open spec fn ceiling_issues(size: int, rules: ValidationRules) -> Seq<Seq<char>> {
    if size > rules.compressed_package_max_size {
        seq![
            "The compressed package exceeds the maximum size of "@ + byte_size_display(
                rules.compressed_package_max_size,
            ) + " bytes."@,
        ]
    } else {
        Seq::empty()
    }
}

/// `entry` is a file of more than `limit` bytes.
pub open spec fn oversized(entry: ArchiveEntry, limit: u64) -> bool {
    !entry.is_directory && entry.size > limit
}

/// The issue of a file over the limit: it names the file, its size and the
/// limit.
pub open spec fn oversized_issue(entry: ArchiveEntry, limit: u64) -> Seq<char> {
    "The file "@ + entry.path@ + " ("@ + byte_size_display(entry.size)
        + ") exceeds the maximum size of "@ + byte_size_display(limit) + " bytes."@
}

/// One issue for each file among `entries` that is over the limit, in the
/// order of `entries`.
pub open spec fn oversized_issues(entries: Seq<ArchiveEntry>, limit: u64) -> Seq<Seq<char>>
    decreases entries.len(),
{
    if entries.len() == 0 {
        Seq::empty()
    } else if oversized(entries.last(), limit) {
        oversized_issues(entries.drop_last(), limit).push(oversized_issue(entries.last(), limit))
    } else {
        oversized_issues(entries.drop_last(), limit)
    }
}

/// The issues of the root's listing.
pub open spec fn listing_issues(listing: Option<Vec<ArchiveEntry>>, rules: ValidationRules) -> Seq<
    Seq<char>,
> {
    match listing {
        None => seq!["Failed to read the root directory of the archive."@],
        Some(entries) => oversized_issues(entries@, rules.internal_file_max_size),
    }
}

/// The issues of a definition by itself: its name and its version.
pub open spec fn definition_issues(definition: DefinitionView) -> Seq<Seq<char>> {
    (match name_fault(definition.name) {
        Some(message) => seq![message],
        None => Seq::empty(),
    }) + (match semver_fault(definition.version) {
        Some(message) => seq![
            "Invalid package version '"@ + definition.version + "': "@ + message,
        ],
        None => Seq::empty(),
    })
}

/// `expected` is set and differs from `found`.
pub open spec fn unexpected(expected: Option<String>, found: Seq<char>) -> bool {
    expected matches Some(text) && text@ != found
}

/// The issues of a definition that differs from what the rules expect.
pub open spec fn expectation_issues(definition: DefinitionView, rules: ValidationRules) -> Seq<
    Seq<char>,
> {
    (if unexpected(rules.expected_name, definition.name) {
        seq![
            "Expected package name '"@ + rules.expected_name->0@ + "' but found '"@
                + definition.name + "'"@,
        ]
    } else {
        Seq::empty()
    }) + (if unexpected(rules.expected_version, definition.version) {
        seq![
            "Expected package version '"@ + rules.expected_version->0@ + "' but found '"@
                + definition.version + "'"@,
        ]
    } else {
        Seq::empty()
    })
}

/// The definition that a manifest read as `read` holds, or the issue that
/// stands for a manifest that cannot be opened, read or parsed. `file` is the
/// manifest's path, for the message.
pub open spec fn definition_in(read: FileReadView, file: Seq<char>) -> Result<
    DefinitionView,
    Seq<char>,
> {
    match read {
        FileReadView::Unopened(reason) => Err(
            "Could not open '"@ + file + "' file in the archive: "@ + reason,
        ),
        FileReadView::Unreadable(reason) => Err("Failed to read '"@ + file + "': "@ + reason),
        FileReadView::Text(text) => match manifest_in(text) {
            Err(message) => Err("Invalid '"@ + file + "' format: "@ + message),
            Ok(definition) => Ok(definition),
        },
    }
}

/// The issues of the manifest: one where it holds no definition, else those
/// of the definition by itself and against the rules.
pub open spec fn manifest_issues(manifest: FileReadView, rules: ValidationRules) -> Seq<
    Seq<char>,
> {
    match definition_in(manifest, "boo.json"@) {
        Err(message) => seq![message],
        Ok(definition) => definition_issues(definition) + expectation_issues(definition, rules),
    }
}

/// The issue of a question about an entry point that found no answer.
pub open spec fn presence_issues(found: Result<bool, String>, file: Seq<char>) -> Seq<
    Seq<char>,
> {
    match found {
        Ok(_) => Seq::empty(),
        Err(reason) => seq!["Failed to check for '"@ + file + "': "@ + reason@],
    }
}

/// The entry is known to be there.
pub open spec fn present(found: Result<bool, String>) -> bool {
    found matches Ok(there) && there
}

/// The issues of the entry points: one for each that could not be looked
/// for, and one where neither is known to be there.
pub open spec fn entry_point_issues(
    library: Result<bool, String>,
    program: Result<bool, String>,
) -> Seq<Seq<char>> {
    presence_issues(library, "lib.ua"@) + presence_issues(program, "main.ua"@) + (if !present(
        library,
    ) && !present(program) {
        seq!["The package must contain at least one of either 'lib.ua' or 'main.ua'."@]
    } else {
        Seq::empty()
    })
}

/// The issues of an archive that could be opened: those of its listing, of
/// its manifest and of its entry points, in that order.
pub open spec fn content_issues(snapshot: ArchiveSnapshot, rules: ValidationRules) -> Seq<
    Seq<char>,
> {
    listing_issues(snapshot.listing, rules) + manifest_issues(snapshot.manifest@, rules)
        + entry_point_issues(snapshot.library, snapshot.program)
}

/// The issue of an archive that could not be opened.
pub open spec fn unreadable_issues(reason: Seq<char>) -> Seq<Seq<char>> {
    seq!["Failed to read the package: "@ + reason]
}

/// All issues of an archive of `size` bytes: that of the ceiling, then
/// either the one of an archive that cannot be opened or those of its
/// contents.
pub open spec fn package_issues(
    size: int,
    opened: Result<ArchiveSnapshot, String>,
    rules: ValidationRules,
) -> Seq<Seq<char>> {
    ceiling_issues(size, rules) + (match opened {
        Err(reason) => unreadable_issues(reason@),
        Ok(snapshot) => content_issues(snapshot, rules),
    })
}

/// Moves `more` to the end of `errors`.
fn extend(errors: &mut Vec<ValidationError>, more: Vec<ValidationError>)
    ensures
        messages(final(errors)@) == messages(old(errors)@) + messages(more@),
{
    let mut more = more;
    errors.append(&mut more);
}

/// Adds an error with `message` at the end of `errors`.
fn report(errors: &mut Vec<ValidationError>, message: String)
    ensures
        messages(final(errors)@) == messages(old(errors)@).push(message@),
{
    let error = ValidationError::new(message);
    errors.push(error);
}

/// The files at the root that are over the limit of `rules`, one issue each.
/// A listing that could not be had is one issue.
pub fn validate_package_files(rules: &ValidationRules, listing: &Option<Vec<ArchiveEntry>>) -> (errors:
    Vec<ValidationError>)
    ensures
        messages(errors@) == listing_issues(*listing, *rules),
{
    let mut errors: Vec<ValidationError> = Vec::new();
    let entries = match listing {
        None => {
            report(
                &mut errors,
                String::from_str("Failed to read the root directory of the archive."),
            );
            return errors;
        },
        Some(entries) => entries,
    };
    let limit = rules.internal_file_max_size;
    let mut i: usize = 0;
    while i < entries.len()
        invariant
            i <= entries.len(),
            limit == rules.internal_file_max_size,
            messages(errors@) == oversized_issues(entries@.take(i as int), limit),
        decreases entries.len() - i,
    {
        let entry = &entries[i];
        proof {
            assert(entries@.take(i + 1).drop_last() =~= entries@.take(i as int));
        }
        if !entry.is_directory && entry.size > limit {
            let mut message = joined3("The file ", entry.path.as_str(), " (");
            message.append(byte_size_text(entry.size).as_str());
            message.append(") exceeds the maximum size of ");
            message.append(byte_size_text(limit).as_str());
            message.append(" bytes.");
            report(&mut errors, message);
        }
        i = i + 1;
    }
    assert(entries@.take(i as int) == entries@);
    errors
}

/// The outcome of reading a definition, with texts as plain values.
pub open spec fn definition_outcome(read: Result<BooPackageDefinition, ValidationError>) -> Result<
    DefinitionView,
    Seq<char>,
> {
    match read {
        Ok(definition) => Ok(definition@),
        Err(error) => Err(error@),
    }
}

/// The definition in a manifest that was read as `read` from `file_path`.
pub fn read_package_definition(read: &FileRead, file_path: &str) -> (definition: Result<
    BooPackageDefinition,
    ValidationError,
>)
    ensures
        definition_outcome(definition) == definition_in(read@, file_path@),
{
    match read {
        FileRead::Unopened(reason) => {
            let mut message = joined3("Could not open '", file_path, "' file in the archive: ");
            message.append(reason.as_str());
            Err(ValidationError::new(message))
        },
        FileRead::Unreadable(reason) => {
            let mut message = joined3("Failed to read '", file_path, "': ");
            message.append(reason.as_str());
            Err(ValidationError::new(message))
        },
        FileRead::Text(text) => match parse_manifest(text.as_str()) {
            Err(reason) => {
                let mut message = joined3("Invalid '", file_path, "' format: ");
                message.append(reason.as_str());
                Err(ValidationError::new(message))
            },
            Ok(definition) => Ok(definition),
        },
    }
}

/// Opens, reads and parses the manifest at `file_path` of `package`.
pub fn try_get_package_definition(package: &UnpackedArchive, file_path: &str) -> (definition:
    Result<BooPackageDefinition, ValidationError>)
    ensures
        definition_outcome(definition) == definition_in(
            file_read(package@, file_path@),
            file_path@,
        ),
{
    let read = package.read_text(file_path);
    read_package_definition(&read, file_path)
}

/// Checks the name and the version of `definition`.
pub fn validate_package_definition(definition: &BooPackageDefinition) -> (errors: Vec<
    ValidationError,
>)
    ensures
        messages(errors@) == definition_issues(definition@),
{
    let mut errors: Vec<ValidationError> = Vec::new();
    match validate_package_name(&definition.name) {
        Err(error) => {
            errors.push(error);
        },
        Ok(_) => {},
    }
    match version_fault(definition.version.as_str()) {
        Some(reason) => {
            let mut message = joined3(
                "Invalid package version '",
                definition.version.as_str(),
                "': ",
            );
            message.append(reason.as_str());
            report(&mut errors, message);
        },
        None => {},
    }
    errors
}

/// Holds `definition` against the name and the version that `rules` expect.
pub fn validate_package_definition_by_rules(
    definition: &BooPackageDefinition,
    rules: &ValidationRules,
) -> (errors: Vec<ValidationError>)
    ensures
        messages(errors@) == expectation_issues(definition@, *rules),
{
    let mut errors: Vec<ValidationError> = Vec::new();
    match &rules.expected_name {
        Some(expected_name) => {
            if definition.name != *expected_name {
                let mut message = joined3(
                    "Expected package name '",
                    expected_name.as_str(),
                    "' but found '",
                );
                message.append(definition.name.as_str());
                message.append("'");
                report(&mut errors, message);
            }
        },
        None => {},
    }
    match &rules.expected_version {
        Some(expected_version) => {
            if definition.version != *expected_version {
                let mut message = joined3(
                    "Expected package version '",
                    expected_version.as_str(),
                    "' but found '",
                );
                message.append(definition.version.as_str());
                message.append("'");
                report(&mut errors, message);
            }
        },
        None => {},
    }
    errors
}

/// Looks at the answer to the question whether the entry point `file`
/// exists, and reports a question that found no answer.
fn check_entry_point(errors: &mut Vec<ValidationError>, found: &Result<bool, String>, file: &str) -> (there:
    bool)
    ensures
        there == present(*found),
        messages(final(errors)@) == messages(old(errors)@) + presence_issues(*found, file@),
{
    match found {
        Ok(status) => {
            *status
        },
        Err(reason) => {
            let mut message = joined3("Failed to check for '", file, "': ");
            message.append(reason.as_str());
            report(errors, message);
            false
        },
    }
}

/// Validates what was read of an opened archive: the sizes of the files at
/// its root, its manifest and its entry points. Every check is made, whatever
/// the others found.
pub fn validate_contents(snapshot: &ArchiveSnapshot, rules: &ValidationRules) -> (errors: Vec<
    ValidationError,
>)
    ensures
        messages(errors@) == content_issues(*snapshot, *rules),
{
    let mut errors = validate_package_files(rules, &snapshot.listing);
    match read_package_definition(&snapshot.manifest, MANIFEST_FILE) {
        Ok(definition) => {
            extend(&mut errors, validate_package_definition(&definition));
            extend(&mut errors, validate_package_definition_by_rules(&definition, rules));
        },
        Err(error) => {
            errors.push(error);
        },
    }
    let has_lib_file = check_entry_point(&mut errors, &snapshot.library, LIBRARY_FILE);
    let has_main_file = check_entry_point(&mut errors, &snapshot.program, PROGRAM_FILE);
    if !has_lib_file && !has_main_file {
        report(
            &mut errors,
            String::from_str(
                "The package must contain at least one of either 'lib.ua' or 'main.ua'.",
            ),
        );
    }
    errors
}

/// Validates an archive of `size` bytes of which opening came to `opened`:
/// a snapshot of its contents, or the reason why it cannot be read.
pub fn validate_opened(
    size: usize,
    opened: &Result<ArchiveSnapshot, String>,
    rules: &ValidationRules,
) -> (errors: Vec<ValidationError>)
    ensures
        messages(errors@) == package_issues(size as int, *opened, *rules),
{
    let mut errors: Vec<ValidationError> = Vec::new();
    if size as u64 > rules.compressed_package_max_size {
        let mut message = joined3(
            "The compressed package exceeds the maximum size of ",
            byte_size_text(rules.compressed_package_max_size).as_str(),
            " bytes.",
        );
        report(&mut errors, message);
    }
    match opened {
        Err(reason) => {
            report(&mut errors, joined("Failed to read the package: ", reason.as_str()));
        },
        Ok(snapshot) => {
            extend(&mut errors, validate_contents(snapshot, rules));
        },
    }
    errors
}

/// `issues` are the issues of the archive `bytes` under `rules`: that of the
/// ceiling, then either the one of an archive that is not opened, or those
/// of what the opened archive answers. The root is listed in an order that
/// the archive leaves open, and the files over the limit are named in that
/// order.
pub open spec fn validated(bytes: Seq<u8>, rules: ValidationRules, issues: Seq<Seq<char>>) -> bool {
    match opening_fault(bytes) {
        Some(reason) => issues == ceiling_issues(bytes.len() as int, rules) + unreadable_issues(
            reason,
        ),
        None => exists|snapshot: ArchiveSnapshot| #[trigger]
            taken_from(snapshot, bytes) && issues == ceiling_issues(bytes.len() as int, rules)
                + content_issues(snapshot, rules),
    }
}

/// Validates a package archive: a gzip-compressed tarball held in `buffer`.
///
/// An archive over the ceiling is reported and looked into all the same. One
/// that cannot be opened, because it declares a file too large to unpack or
/// because unpacking it fails, is reported, and nothing more is said of it.
/// Of one that can be opened, every issue is reported.
pub fn validate_package(buffer: &Vec<u8>, rules: &ValidationRules) -> (errors: Vec<ValidationError>)
    ensures
        validated(buffer@, *rules, messages(errors@)),
{
    let opened = match unpack(buffer.as_slice()) {
        Err(reason) => Err(reason),
        Ok(archive) => Ok(inspect_archive(&archive)),
    };
    proof {
        if opened is Ok {
            assert(taken_from(opened->Ok_0, buffer@));
        }
    }
    validate_opened(buffer.len(), &opened, rules)
}

/// No file among `entries` is over `limit`.
pub open spec fn within_limit(entries: Seq<ArchiveEntry>, limit: u64) -> bool {
    forall|i: int| 0 <= i < entries.len() ==> !oversized(#[trigger] entries[i], limit)
}

proof fn lemma_within_limit(entries: Seq<ArchiveEntry>, limit: u64)
    requires
        within_limit(entries, limit),
    ensures
        oversized_issues(entries, limit) == Seq::<Seq<char>>::empty(),
    decreases entries.len(),
{
    if entries.len() > 0 {
        lemma_within_limit(entries.drop_last(), limit);
    }
}

/// The manifest of the archive `bytes` holds a definition with an
/// acceptable name and version that is what `rules` expect.
pub open spec fn sound_manifest(bytes: Seq<u8>, rules: ValidationRules) -> bool {
    &&& definition_in(file_read(bytes, "boo.json"@), "boo.json"@) matches Ok(definition)
    &&& valid_name(definition.name)
    &&& semver_fault(definition.version) is None
    &&& !unexpected(rules.expected_name, definition.name)
    &&& !unexpected(rules.expected_version, definition.version)
}

/// No file at the root of the archive `bytes` is over the limit of `rules`.
pub open spec fn sound_root(bytes: Seq<u8>, rules: ValidationRules) -> bool {
    forall|name: Seq<char>| #[trigger]
        root_entries(bytes).contains_key(name) ==> root_entries(bytes)[name].0 || root_entries(
            bytes,
        )[name].1 <= rules.internal_file_max_size
}

/// The archive `bytes` has one of the two entry points.
pub open spec fn has_entry_point(bytes: Seq<u8>) -> bool {
    entry_exists(bytes, "lib.ua"@) == Ok::<bool, Seq<char>>(true) || entry_exists(
        bytes,
        "main.ua"@,
    ) == Ok::<bool, Seq<char>>(true)
}

/// The archive `bytes` is within the ceiling, can be opened, holds no file
/// over the limit at its root, and has a sound manifest.
pub open spec fn sound_but_for_entry_point(bytes: Seq<u8>, rules: ValidationRules) -> bool {
    &&& bytes.len() <= rules.compressed_package_max_size
    &&& opening_fault(bytes) is None
    &&& sound_root(bytes, rules)
    &&& sound_manifest(bytes, rules)
}

proof fn lemma_sound_root(snapshot: ArchiveSnapshot, bytes: Seq<u8>, rules: ValidationRules)
    requires
        taken_from(snapshot, bytes),
        sound_root(bytes, rules),
    ensures
        listing_issues(snapshot.listing, rules) == Seq::<Seq<char>>::empty(),
{
    let entries = snapshot.listing->0@;
    assert forall|i: int| 0 <= i < entries.len() implies !oversized(
        #[trigger] entries[i],
        rules.internal_file_max_size,
    ) by {
        assert(root_entries(bytes).contains_key(entries[i].path@));
    }
    lemma_within_limit(entries, rules.internal_file_max_size);
}

/// An archive within the ceiling with a sound manifest and an entry point
/// has no issue, provided that no file at its root is over the limit.
pub proof fn lemma_sound_archive_passes(
    bytes: Seq<u8>,
    rules: ValidationRules,
    issues: Seq<Seq<char>>,
)
    requires
        validated(bytes, rules, issues),
        sound_but_for_entry_point(bytes, rules),
        has_entry_point(bytes),
    ensures
        issues == Seq::<Seq<char>>::empty(),
{
    let snapshot = choose|snapshot: ArchiveSnapshot| #[trigger]
        taken_from(snapshot, bytes) && issues == ceiling_issues(bytes.len() as int, rules)
            + content_issues(snapshot, rules);
    lemma_sound_root(snapshot, bytes, rules);
}

/// An archive that a project with a sound manifest and the program's entry
/// point packs to has no issue under the default rules, provided that
/// neither the archive nor a file at its root is over five megabytes.
pub proof fn lemma_sound_project_passes(
    bytes: Seq<u8>,
    rules: ValidationRules,
    issues: Seq<Seq<char>>,
)
    requires
        validated(bytes, rules, issues),
        rules.compressed_package_max_size == DEFAULT_MAX_SIZE,
        rules.internal_file_max_size == DEFAULT_MAX_SIZE,
        rules.expected_name is None,
        rules.expected_version is None,
        sound_but_for_entry_point(bytes, rules),
        entry_exists(bytes, "main.ua"@) == Ok::<bool, Seq<char>>(true),
    ensures
        issues == Seq::<Seq<char>>::empty(),
{
    lemma_sound_archive_passes(bytes, rules, issues);
}

/// An archive over the ceiling has exactly one issue more than it would have
/// under the ceiling: the issue of the ceiling, which comes first. What the
/// archive holds, and whether it can be opened at all, changes nothing in
/// that.
pub proof fn lemma_over_ceiling(
    size: int,
    under: int,
    opened: Result<ArchiveSnapshot, String>,
    rules: ValidationRules,
)
    requires
        size > rules.compressed_package_max_size,
        under <= rules.compressed_package_max_size,
    ensures
        ceiling_issues(size, rules).len() == 1,
        ceiling_issues(under, rules).len() == 0,
        package_issues(size, opened, rules) == ceiling_issues(size, rules) + package_issues(
            under,
            opened,
            rules,
        ),
        package_issues(size, opened, rules)[0] == ceiling_issues(size, rules)[0],
{
}

/// An archive over the ceiling is told so once, before anything else,
/// whatever it holds and whether or not it can be opened: the issues behind
/// the first are those that the same archive has under rules that differ in
/// the ceiling alone, and whose ceiling it is within.
pub proof fn lemma_over_ceiling_reported(
    bytes: Seq<u8>,
    rules: ValidationRules,
    lifted: ValidationRules,
    issues: Seq<Seq<char>>,
)
    requires
        validated(bytes, rules, issues),
        bytes.len() > rules.compressed_package_max_size,
        bytes.len() <= lifted.compressed_package_max_size,
        lifted == (ValidationRules {
            compressed_package_max_size: lifted.compressed_package_max_size,
            ..rules
        }),
    ensures
        issues.len() >= 1,
        issues[0] == "The compressed package exceeds the maximum size of "@ + byte_size_display(
            rules.compressed_package_max_size,
        ) + " bytes."@,
        validated(bytes, lifted, issues.drop_first()),
{
    let size = bytes.len() as int;
    match opening_fault(bytes) {
        Some(reason) => {
            assert(issues.drop_first() =~= ceiling_issues(size, lifted) + unreadable_issues(
                reason,
            ));
        },
        None => {
            let snapshot = choose|snapshot: ArchiveSnapshot| #[trigger]
                taken_from(snapshot, bytes) && issues == ceiling_issues(size, rules)
                    + content_issues(snapshot, rules);
            assert(content_issues(snapshot, lifted) == content_issues(snapshot, rules));
            assert(issues.drop_first() =~= ceiling_issues(size, lifted) + content_issues(
                snapshot,
                lifted,
            ));
        },
    }
}

/// An archive within the ceiling with a sound manifest and neither entry
/// point has one issue, that of the missing entry point, provided that no
/// file at its root is over the limit.
pub proof fn lemma_missing_entry_point(
    bytes: Seq<u8>,
    rules: ValidationRules,
    issues: Seq<Seq<char>>,
)
    requires
        validated(bytes, rules, issues),
        sound_but_for_entry_point(bytes, rules),
        !has_entry_point(bytes),
    ensures
        issues == seq!["The package must contain at least one of either 'lib.ua' or 'main.ua'."@],
{
    let snapshot = choose|snapshot: ArchiveSnapshot| #[trigger]
        taken_from(snapshot, bytes) && issues == ceiling_issues(bytes.len() as int, rules)
            + content_issues(snapshot, rules);
    lemma_sound_root(snapshot, bytes, rules);
}

proof fn lemma_entry_taken_out(entries: Seq<ArchiveEntry>, at: int, limit: u64)
    requires
        0 <= at < entries.len(),
    ensures
        oversized_issues(entries, limit).to_multiset() =~= if oversized(entries[at], limit) {
            oversized_issues(entries.remove(at), limit).to_multiset().insert(
                oversized_issue(entries[at], limit),
            )
        } else {
            oversized_issues(entries.remove(at), limit).to_multiset()
        },
    decreases entries.len(),
{
    broadcast use to_multiset_build;

    if at == entries.len() - 1 {
        assert(entries.remove(at) =~= entries.drop_last());
    } else {
        lemma_entry_taken_out(entries.drop_last(), at, limit);
        assert(entries.remove(at).drop_last() =~= entries.drop_last().remove(at));
    }
}

proof fn lemma_listings_agree(
    first: Seq<ArchiveEntry>,
    second: Seq<ArchiveEntry>,
    root: Map<Seq<char>, (bool, u64)>,
    limit: u64,
)
    requires
        lists(first, root),
        lists(second, root),
    ensures
        oversized_issues(first, limit).to_multiset() =~= oversized_issues(
            second,
            limit,
        ).to_multiset(),
    decreases first.len(),
{
    broadcast use to_multiset_build;

    if first.len() == 0 {
        if second.len() > 0 {
            assert(root.contains_key(second[0].path@));
        }
    } else {
        let last = first.last();
        let name = last.path@;
        assert(root.contains_key(first[first.len() - 1].path@));
        let at = choose|i: int| 0 <= i < second.len() && #[trigger] second[i].path@ == name;
        assert(root.contains_key(second[at].path@));
        let rest = root.remove(name);
        let first_rest = first.drop_last();
        let second_rest = second.remove(at);
        assert(lists(first_rest, rest)) by {
            assert forall|i: int| 0 <= i < first_rest.len() implies rest.contains_key(
                #[trigger] first_rest[i].path@,
            ) && rest[first_rest[i].path@] == (first_rest[i].is_directory, first_rest[i].size) by {
                assert(first[i].path@ != first[first.len() - 1].path@);
                assert(root.contains_key(first[i].path@));
            }
            assert forall|name: Seq<char>| #[trigger] rest.contains_key(name) implies exists|
                i: int,
            |
                0 <= i < first_rest.len() && #[trigger] first_rest[i].path@ == name by {
                assert(root.contains_key(name));
                let i = choose|i: int| 0 <= i < first.len() && #[trigger] first[i].path@ == name;
                assert(first_rest[i].path@ == name);
            }
        }
        assert(lists(second_rest, rest)) by {
            assert forall|i: int| 0 <= i < second_rest.len() implies rest.contains_key(
                #[trigger] second_rest[i].path@,
            ) && rest[second_rest[i].path@] == (
                second_rest[i].is_directory,
                second_rest[i].size,
            ) by {
                let from = if i < at {
                    i
                } else {
                    i + 1
                };
                assert(second_rest[i] == second[from]);
                assert(second[from].path@ != second[at].path@);
                assert(root.contains_key(second[from].path@));
            }
            assert forall|i: int, j: int| 0 <= i < j < second_rest.len() implies #[trigger]
                second_rest[i].path@ != #[trigger] second_rest[j].path@ by {
                let from_i = if i < at {
                    i
                } else {
                    i + 1
                };
                let from_j = if j < at {
                    j
                } else {
                    j + 1
                };
                assert(second[from_i].path@ != second[from_j].path@);
            }
            assert forall|name: Seq<char>| #[trigger] rest.contains_key(name) implies exists|
                i: int,
            |
                0 <= i < second_rest.len() && #[trigger] second_rest[i].path@ == name by {
                assert(root.contains_key(name));
                let i = choose|i: int| 0 <= i < second.len() && #[trigger] second[i].path@ == name;
                let to = if i < at {
                    i
                } else {
                    i - 1
                };
                assert(second_rest[to].path@ == name);
            }
        }
        lemma_listings_agree(first_rest, second_rest, rest, limit);
        lemma_entry_taken_out(second, at, limit);
    }
}

/// Two validations of one archive under the same rules agree: they report
/// the same issues, each as often as the other. Where no file at the root
/// is over the limit they report them in the same order too; the files over
/// the limit are named in the order in which the archive lists its root,
/// and that order is open.
pub proof fn lemma_repeated_validations_agree(
    bytes: Seq<u8>,
    rules: ValidationRules,
    first: Seq<Seq<char>>,
    second: Seq<Seq<char>>,
)
    requires
        validated(bytes, rules, first),
        validated(bytes, rules, second),
    ensures
        first.to_multiset() =~= second.to_multiset(),
        first.len() == second.len(),
        opening_fault(bytes) is Some || sound_root(bytes, rules) ==> first == second,
{
    broadcast use lemma_multiset_commutative;

    if opening_fault(bytes) is None {
        let one = choose|snapshot: ArchiveSnapshot| #[trigger]
            taken_from(snapshot, bytes) && first == ceiling_issues(bytes.len() as int, rules)
                + content_issues(snapshot, rules);
        let other = choose|snapshot: ArchiveSnapshot| #[trigger]
            taken_from(snapshot, bytes) && second == ceiling_issues(bytes.len() as int, rules)
                + content_issues(snapshot, rules);
        lemma_listings_agree(
            one.listing->0@,
            other.listing->0@,
            root_entries(bytes),
            rules.internal_file_max_size,
        );
        assert(one.library == other.library);
        assert(one.program == other.program);
        if sound_root(bytes, rules) {
            lemma_sound_root(one, bytes, rules);
            lemma_sound_root(other, bytes, rules);
        }
        first.to_multiset_ensures();
        second.to_multiset_ensures();
    }
}

/// A manifest whose name breaks a rule is told so first: the name's message
/// leads the issues of the definition, and so those of the manifest.
pub proof fn lemma_name_fault_reported(
    manifest: FileReadView,
    definition: DefinitionView,
    rules: ValidationRules,
)
    requires
        definition_in(manifest, "boo.json"@) == Ok::<DefinitionView, Seq<char>>(definition),
        name_fault(definition.name) is Some,
    ensures
        definition_issues(definition)[0] == name_fault(definition.name)->0,
        manifest_issues(manifest, rules)[0] == name_fault(definition.name)->0,
{
}

} // verus!
