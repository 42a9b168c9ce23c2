//! A package archive opened for reading.
//!
//! An archive is a gzip-compressed tarball. It is decompressed and unpacked
//! in memory by `flate2` and `virtual_filesystem`, once a walk over its
//! headers with `tar` has shown that it can be. This module asks the
//! unpacked archive the few questions that validation needs answered and
//! keeps the answers as plain values.

use std::io::Read;
use vstd::prelude::*;
use virtual_filesystem::tar_fs::TarFS;
use virtual_filesystem::FileSystem;

verus! {

/// An unpacked archive of `virtual_filesystem`, held in memory. Nothing is
/// known of what is inside it but through the functions below.
#[verifier::external_type_specification]
#[verifier::external_body]
pub struct ExTarFS(virtual_filesystem::tar_fs::TarFS);

/// An archive unpacked into memory. `unpack` alone makes one, and nothing
/// changes it afterwards.
pub struct UnpackedArchive {
    files: TarFS,
}

impl View for UnpackedArchive {
    type V = Seq<u8>;

    /// The bytes that the archive was unpacked from.
    closed spec fn view(&self) -> Seq<u8> {
        packed(self.files)
    }
}

/// The name of the manifest at the root of an archive.
pub const MANIFEST_FILE: &'static str = "boo.json";

/// The entry point of a library package.
pub const LIBRARY_FILE: &'static str = "lib.ua";

/// The entry point of a program package.
pub const PROGRAM_FILE: &'static str = "main.ua";

/// An entry at the root of an archive.
#[derive(Debug)]
pub struct ArchiveEntry {
    pub path: String,
    pub is_directory: bool,
    pub size: u64,
}

/// What reading a file of an archive as text came to.
#[derive(Debug)]
pub enum FileRead {
    /// The file's text.
    Text(String),
    /// The file could not be opened, with the reason.
    Unopened(String),
    /// The file was opened and could not be read as text, with the reason.
    Unreadable(String),
}

/// A `FileRead` with its texts as plain values.
pub enum FileReadView {
    Text(Seq<char>),
    Unopened(Seq<char>),
    Unreadable(Seq<char>),
}

impl View for FileRead {
    type V = FileReadView;

    open spec fn view(&self) -> FileReadView {
        match self {
            FileRead::Text(text) => FileReadView::Text(text@),
            FileRead::Unopened(reason) => FileReadView::Unopened(reason@),
            FileRead::Unreadable(reason) => FileReadView::Unreadable(reason@),
        }
    }
}

/// The answer to the question whether an entry exists, with the text of the
/// reason where the question could not be answered.
pub open spec fn presence(found: Result<bool, String>) -> Result<bool, Seq<char>> {
    match found {
        Ok(present) => Ok(present),
        Err(reason) => Err(reason@),
    }
}

/// What is said of an archive that declares a file of more bytes than it
/// can be unpacked to.
pub const TOO_LARGE_TO_UNPACK: &'static str =
    "the archive declares a file of more bytes than can be unpacked";

/// The most bytes that one byte of a gzip stream unpacks to. The shortest
/// code of the format takes two bits and stands for 258 bytes.
pub const MOST_UNPACKED_PER_BYTE: u64 = 1032;

/// What the headers in the archive `bytes` declare, one item for each entry
/// that a walk over the archive comes by before it ends or fails: whether
/// the header marks a regular file, and the size that it declares, where
/// that can be read.
pub uninterp spec fn declared_sizes(bytes: Seq<u8>) -> Seq<(bool, Option<u64>)>;

/// The message with which unpacking `bytes` fails. `None` when they can be
/// unpacked.
pub uninterp spec fn archive_fault(bytes: Seq<u8>) -> Option<Seq<char>>;

/// The bytes that `archive` was unpacked from. Nothing changes an archive
/// once it is unpacked, so these bytes decide whatever it answers.
pub uninterp spec fn packed(archive: TarFS) -> Seq<u8>;

/// The entries at the root of the archive unpacked from `bytes`: for each
/// name, whether it is a directory, and its size in bytes.
pub uninterp spec fn root_entries(bytes: Seq<u8>) -> Map<Seq<char>, (bool, u64)>;

/// What reading the file at `path` of the archive unpacked from `bytes` as
/// text comes to.
pub uninterp spec fn file_read(bytes: Seq<u8>, path: Seq<char>) -> FileReadView;

/// Whether the archive unpacked from `bytes` has an entry at `path`, or why
/// that cannot be told.
pub uninterp spec fn entry_exists(bytes: Seq<u8>, path: Seq<char>) -> Result<bool, Seq<char>>;

/// `entries` holds each entry of `root` once, in any order.
pub open spec fn lists(entries: Seq<ArchiveEntry>, root: Map<Seq<char>, (bool, u64)>) -> bool {
    &&& forall|i: int|
        0 <= i < entries.len() ==> root.contains_key(#[trigger] entries[i].path@) && root[entries[i].path@]
            == (entries[i].is_directory, entries[i].size)
    &&& forall|i: int, j: int|
        0 <= i < j < entries.len() ==> #[trigger] entries[i].path@ != #[trigger] entries[j].path@
    &&& forall|name: Seq<char>| #[trigger]
        root.contains_key(name) ==> exists|i: int|
            0 <= i < entries.len() && #[trigger] entries[i].path@ == name
}

/// Memory can be reserved for what `header` declares in an archive of
/// `length` bytes: it marks no regular file, or no size can be read from it,
/// or the size is one that a vector can have and that an archive of this
/// length can unpack to.
pub open spec fn reservable(header: (bool, Option<u64>), length: nat) -> bool {
    header.0 ==> (header.1 matches Some(size) ==> size <= isize::MAX as u64 && size
        <= MOST_UNPACKED_PER_BYTE * length)
}

/// Every regular file in the archive `bytes` declares a size for which
/// memory can be reserved.
pub open spec fn sizes_fit(bytes: Seq<u8>) -> bool {
    forall|i: int|
        0 <= i < declared_sizes(bytes).len() ==> reservable(
            #[trigger] declared_sizes(bytes)[i],
            bytes.len(),
        )
}

/// Why `bytes` are not opened as an archive: they declare a file too large
/// to unpack, or unpacking them fails. `None` when they are opened.
pub open spec fn opening_fault(bytes: Seq<u8>) -> Option<Seq<char>> {
    if sizes_fit(bytes) {
        archive_fault(bytes)
    } else {
        Some(TOO_LARGE_TO_UNPACK@)
    }
}

/// `tar::Archive::entries` on a `flate2::read::GzDecoder` over the bytes,
/// and of each entry that the iterator hands out `Header::entry_type` with
/// `EntryType::is_file`, and `Header::size`. The walk reads the headers and
/// skips what lies between them. It ends with the archive, or at the first
/// entry that the iterator fails on. What it comes by is a function of the
/// bytes alone.
#[verifier::external_body]
fn read_declared_sizes(buffer: &[u8]) -> (headers: Vec<(bool, Option<u64>)>)
    ensures
        headers@ == declared_sizes(buffer@),
{
    let mut archive = tar::Archive::new(flate2::read::GzDecoder::new(buffer));
    let mut headers = Vec::new();
    if let Ok(entries) = archive.entries() {
        for entry in entries.map_while(Result::ok) {
            let header = entry.header();
            headers.push((header.entry_type().is_file(), header.size().ok()));
        }
    }
    headers
}

/// `TarFS::new` on a `flate2::read::GzDecoder` over the bytes: decompresses
/// and unpacks the whole archive into memory. Whether that fails, with which
/// message, and what the archive holds is a function of the bytes alone.
/// For each regular file `TarFS::new` reserves a vector of the size that the
/// header declares before it reads the file. Reserving more than
/// `isize::MAX` bytes panics, and reserving more than the machine has ends
/// the process: the bytes must declare no size over `isize::MAX`, and none
/// that they could not unpack to. `TarFS::new` comes by the headers as the
/// walk of `read_declared_sizes` does, and stops no later. So it asks for
/// memory in proportion to the archive, as any unpacking does.
#[verifier::external_body]
fn open_archive(buffer: &[u8]) -> (opened: Result<TarFS, String>)
    requires
        sizes_fit(buffer@),
    ensures
        match opened {
            Ok(archive) => archive_fault(buffer@) is None && packed(archive) == buffer@,
            Err(reason) => archive_fault(buffer@) == Some(reason@),
        },
{
    TarFS::new(flate2::read::GzDecoder::new(buffer)).map_err(|error| error.to_string())
}

/// `TarFS::read_dir` on the root. The root of an archive is a directory
/// whatever was unpacked, so there is always a listing. The archive keeps a
/// directory in a hash map keyed by name, so each entry comes once and the
/// order is open.
#[verifier::external_body]
fn list_root(archive: &TarFS) -> (listing: Option<Vec<ArchiveEntry>>)
    ensures
        listing is Some,
        listing matches Some(entries) ==> lists(entries@, root_entries(packed(*archive))),
{
    let entries = archive.read_dir("/").ok()?;
    Some(
        entries.flatten().map(
            |entry|
                ArchiveEntry {
                    path: entry.path.display().to_string(),
                    is_directory: entry.is_directory(),
                    size: entry.len(),
                },
        ).collect(),
    )
}

/// `TarFS::open_file`, then `read_to_string` on the file it hands back.
#[verifier::external_body]
fn read_file(archive: &TarFS, path: &str) -> (read: FileRead)
    ensures
        read@ == file_read(packed(*archive), path@),
{
    let mut file = match archive.open_file(path) {
        Ok(file) => file,
        Err(error) => return FileRead::Unopened(error.to_string()),
    };
    let mut text = String::new();
    match file.read_to_string(&mut text) {
        Ok(_) => FileRead::Text(text),
        Err(error) => FileRead::Unreadable(error.to_string()),
    }
}

/// `path` is a plain file name: ASCII letters, digits, dots, dashes and
/// underscores, the first of them a letter or a digit.
pub open spec fn plain_name(path: Seq<char>) -> bool {
    &&& path.len() > 0
    &&& is_alphanumeric(path[0])
    &&& forall|i: int|
        0 <= i < path.len() ==> is_alphanumeric(#[trigger] path[i]) || path[i] == '.' || path[i]
            == '-' || path[i] == '_'
}

/// An ASCII letter or digit.
pub open spec fn is_alphanumeric(c: char) -> bool {
    ('a' <= c && c <= 'z') || ('A' <= c && c <= 'Z') || ('0' <= c && c <= '9')
}

/// `TarFS::exists`: whether there is a file or a directory at `path`. A
/// plain file name is looked up in the root directory, which finds an entry
/// or finds none: the question is answered.
#[verifier::external_body]
fn has_entry(archive: &TarFS, path: &str) -> (found: Result<bool, String>)
    ensures
        presence(found) == entry_exists(packed(*archive), path@),
        plain_name(path@) ==> found is Ok,
{
    archive.exists(path).map_err(|error| error.to_string())
}

/// Whether every regular file in the archive in `buffer` declares a size
/// for which memory can be reserved: one that a vector can have, and that
/// an archive of this length can unpack to.
pub fn declared_sizes_fit(buffer: &[u8]) -> (fit: bool)
    ensures
        fit == sizes_fit(buffer@),
{
    let headers = read_declared_sizes(buffer);
    let length: u64 = buffer.len() as u64;
    let most: u64 = if length > u64::MAX / MOST_UNPACKED_PER_BYTE {
        u64::MAX
    } else {
        length * MOST_UNPACKED_PER_BYTE
    };
    let mut i: usize = 0;
    while i < headers.len()
        invariant
            i <= headers.len(),
            headers@ == declared_sizes(buffer@),
            length == buffer@.len(),
            most == MOST_UNPACKED_PER_BYTE * length || (most == u64::MAX && most
                < MOST_UNPACKED_PER_BYTE * length),
            forall|k: int| 0 <= k < i ==> reservable(#[trigger] headers[k], buffer@.len()),
        decreases headers.len() - i,
    {
        let (regular, declared) = headers[i];
        if regular {
            match declared {
                Some(size) => {
                    if size > isize::MAX as u64 || size > most {
                        assert(!reservable(declared_sizes(buffer@)[i as int], buffer@.len()));
                        return false;
                    }
                },
                None => {},
            }
        }
        i = i + 1;
    }
    true
}

/// Unpacks the archive in `buffer` into memory, unless it declares a file
/// too large to unpack.
pub fn unpack(buffer: &[u8]) -> (opened: Result<UnpackedArchive, String>)
    ensures
        match opened {
            Ok(archive) => opening_fault(buffer@) is None && archive@ == buffer@,
            Err(reason) => opening_fault(buffer@) == Some(reason@),
        },
{
    if !declared_sizes_fit(buffer) {
        return Err(String::from_str(TOO_LARGE_TO_UNPACK));
    }
    match open_archive(buffer) {
        Ok(files) => Ok(UnpackedArchive { files }),
        Err(reason) => Err(reason),
    }
}

impl UnpackedArchive {
    /// Reads the file at `path` as text.
    pub fn read_text(&self, path: &str) -> (read: FileRead)
        ensures
            read@ == file_read(self@, path@),
    {
        read_file(&self.files, path)
    }
}

/// What validation reads of an opened archive.
#[derive(Debug)]
pub struct ArchiveSnapshot {
    /// The entries at the root; `None` when the root could not be listed.
    pub listing: Option<Vec<ArchiveEntry>>,
    /// The manifest, read as text.
    pub manifest: FileRead,
    /// Whether the library entry point exists.
    pub library: Result<bool, String>,
    /// Whether the program entry point exists.
    pub program: Result<bool, String>,
}

/// `snapshot` holds what the archive unpacked from `bytes` answers: the
/// listing of its root, its manifest, and whether it has each entry point.
pub open spec fn taken_from(snapshot: ArchiveSnapshot, bytes: Seq<u8>) -> bool {
    &&& snapshot.listing matches Some(entries) && lists(entries@, root_entries(bytes))
    &&& snapshot.manifest@ == file_read(bytes, MANIFEST_FILE@)
    &&& snapshot.library is Ok
    &&& presence(snapshot.library) == entry_exists(bytes, LIBRARY_FILE@)
    &&& snapshot.program is Ok
    &&& presence(snapshot.program) == entry_exists(bytes, PROGRAM_FILE@)
}

proof fn lemma_entry_points_are_plain_names()
    ensures
        plain_name(LIBRARY_FILE@),
        plain_name(PROGRAM_FILE@),
{
    reveal_strlit("lib.ua");
    reveal_strlit("main.ua");
}

/// Asks `archive` everything that validation needs to know of it.
pub fn inspect_archive(archive: &UnpackedArchive) -> (snapshot: ArchiveSnapshot)
    ensures
        taken_from(snapshot, archive@),
{
    proof {
        lemma_entry_points_are_plain_names();
    }
    let listing = list_root(&archive.files);
    let manifest = read_file(&archive.files, MANIFEST_FILE);
    let library = has_entry(&archive.files, LIBRARY_FILE);
    let program = has_entry(&archive.files, PROGRAM_FILE);
    ArchiveSnapshot { listing, manifest, library, program }
}

} // verus!
