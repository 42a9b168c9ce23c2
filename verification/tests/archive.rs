use boo::archive::{
    declared_sizes_fit, inspect_archive, unpack, ArchiveEntry, ArchiveSnapshot, FileRead,
    UnpackedArchive, TOO_LARGE_TO_UNPACK,
};
use boo::validate::{
    read_package_definition, try_get_package_definition, validate_contents, validate_opened,
    validate_package_files, ValidationError, ValidationRules,
};
use flate2::write::GzEncoder;
use flate2::Compression;
use std::io::Write;

const MANIFEST: &str = r#"{"name": "scope/package", "version": "1.2.3", "include": ["*.ua"]}"#;

fn packed(files: &[(&str, &[u8])]) -> Vec<u8> {
    let mut builder = tar::Builder::new(GzEncoder::new(Vec::new(), Compression::default()));
    for (path, contents) in files {
        let mut header = tar::Header::new_gnu();
        header.set_size(contents.len() as u64);
        header.set_mode(0o644);
        header.set_cksum();
        builder.append_data(&mut header, path, *contents).unwrap();
    }
    builder.into_inner().unwrap().finish().unwrap()
}

fn unpacked(files: &[(&str, &[u8])]) -> UnpackedArchive {
    unpack(&packed(files)).ok().unwrap()
}

fn declaring(path: &str, kind: tar::EntryType, size: u64) -> Vec<u8> {
    let mut header = tar::Header::new_gnu();
    header.set_path(path).unwrap();
    header.set_entry_type(kind);
    header.set_mode(0o644);
    header.set_size(size);
    header.set_cksum();
    let mut encoder = GzEncoder::new(Vec::new(), Compression::default());
    encoder.write_all(header.as_bytes()).unwrap();
    encoder.write_all(&[0u8; 1024]).unwrap();
    encoder.finish().unwrap()
}

fn messages(errors: Vec<ValidationError>) -> Vec<String> {
    errors.into_iter().map(|error| error.message).collect()
}

fn entry(path: &str, is_directory: bool, size: u64) -> ArchiveEntry {
    ArchiveEntry { path: path.to_string(), is_directory, size }
}

fn snapshot() -> ArchiveSnapshot {
    ArchiveSnapshot {
        listing: Some(vec![entry("boo.json", false, 70), entry("main.ua", false, 2)]),
        manifest: FileRead::Text(MANIFEST.to_string()),
        library: Ok(false),
        program: Ok(true),
    }
}

#[test]
fn a_snapshot_holds_what_the_archive_answers() {
    let archive = unpacked(&[
        ("boo.json", MANIFEST.as_bytes()),
        ("lib.ua", b"12345"),
        ("src/inner.ua", b"123"),
    ]);
    let snapshot = inspect_archive(&archive);
    let mut listing: Vec<(String, bool, u64)> = snapshot
        .listing
        .unwrap()
        .into_iter()
        .map(|entry| (entry.path, entry.is_directory, entry.size))
        .collect();
    listing.sort();
    assert_eq!(
        listing,
        vec![
            ("boo.json".to_string(), false, MANIFEST.len() as u64),
            ("lib.ua".to_string(), false, 5),
            ("src".to_string(), true, 0),
        ]
    );
    match snapshot.manifest {
        FileRead::Text(text) => assert_eq!(text, MANIFEST),
        _ => panic!("expected the manifest's text"),
    }
    assert_eq!(snapshot.library, Ok(true));
    assert_eq!(snapshot.program, Ok(false));
}

#[test]
fn a_snapshot_of_an_empty_archive() {
    let snapshot = inspect_archive(&unpacked(&[]));
    assert!(snapshot.listing.unwrap().is_empty());
    assert!(matches!(snapshot.manifest, FileRead::Unopened(_)));
    assert_eq!(snapshot.library, Ok(false));
    assert_eq!(snapshot.program, Ok(false));
}

#[test]
fn gets_the_definition_out_of_an_archive() {
    let archive = unpacked(&[("boo.json", MANIFEST.as_bytes()), ("other.json", b"{}")]);
    let definition = try_get_package_definition(&archive, "boo.json").unwrap();
    assert_eq!(definition.name, "scope/package");
    assert_eq!(definition.version, "1.2.3");
    assert_eq!(definition.includes, vec!["*.ua".to_string()]);
    assert_eq!(
        try_get_package_definition(&archive, "other.json").unwrap_err().message,
        "Invalid 'other.json' format: missing field 'name'"
    );
    let missing = try_get_package_definition(&archive, "none.json").unwrap_err().message;
    assert!(missing.starts_with("Could not open 'none.json' file in the archive: "), "{}", missing);
}

#[test]
fn reads_the_definition_out_of_what_was_read() {
    assert_eq!(
        read_package_definition(&FileRead::Unopened("gone".to_string()), "boo.json")
            .unwrap_err()
            .message,
        "Could not open 'boo.json' file in the archive: gone"
    );
    assert_eq!(
        read_package_definition(&FileRead::Unreadable("no text".to_string()), "m.json")
            .unwrap_err()
            .message,
        "Failed to read 'm.json': no text"
    );
    assert_eq!(
        read_package_definition(&FileRead::Text("[]".to_string()), "boo.json").unwrap_err().message,
        "Invalid 'boo.json' format: missing field 'name'"
    );
    let definition =
        read_package_definition(&FileRead::Text(MANIFEST.to_string()), "boo.json").unwrap();
    assert_eq!(definition.name, "scope/package");
}

#[test]
fn files_are_held_to_the_limit_in_their_order() {
    let mut rules = ValidationRules::new();
    rules.internal_file_max_size = 10;
    let listing = Some(vec![
        entry("b.bin", false, 11),
        entry("dir", true, 5000),
        entry("exact.bin", false, 10),
        entry("a.bin", false, 12),
    ]);
    assert_eq!(
        messages(validate_package_files(&rules, &listing)),
        vec![
            "The file b.bin (11 B) exceeds the maximum size of 10 B bytes.".to_string(),
            "The file a.bin (12 B) exceeds the maximum size of 10 B bytes.".to_string(),
        ]
    );
    assert!(validate_package_files(&rules, &Some(vec![])).is_empty());
}

#[test]
fn a_root_that_cannot_be_listed_is_an_issue() {
    assert_eq!(
        messages(validate_package_files(&ValidationRules::new(), &None)),
        vec!["Failed to read the root directory of the archive.".to_string()]
    );
}

#[test]
fn the_default_limit_is_written_as_a_size() {
    let listing = Some(vec![entry("big.bin", false, 5_000_001)]);
    assert_eq!(
        messages(validate_package_files(&ValidationRules::new(), &listing)),
        vec!["The file big.bin (4.8 MiB) exceeds the maximum size of 4.8 MiB bytes.".to_string()]
    );
}

#[test]
fn sound_contents_have_no_issue() {
    assert!(validate_contents(&snapshot(), &ValidationRules::new()).is_empty());
    assert!(validate_opened(100, &Ok(snapshot()), &ValidationRules::new()).is_empty());
}

#[test]
fn every_check_is_made() {
    let snapshot = ArchiveSnapshot {
        listing: None,
        manifest: FileRead::Text(
            r#"{"name": "nothing", "version": "1", "include": []}"#.to_string(),
        ),
        library: Err("lost".to_string()),
        program: Err("gone".to_string()),
    };
    let rules = ValidationRules::new().with_expected_name("scope/package".to_string());
    let found = messages(validate_contents(&snapshot, &rules));
    assert_eq!(found.len(), 7);
    assert_eq!(found[0], "Failed to read the root directory of the archive.");
    assert_eq!(found[1], "package name must contain exactly one '/'");
    assert!(found[2].starts_with("Invalid package version '1': "));
    assert_eq!(found[3], "Expected package name 'scope/package' but found 'nothing'");
    assert_eq!(found[4], "Failed to check for 'lib.ua': lost");
    assert_eq!(found[5], "Failed to check for 'main.ua': gone");
    assert_eq!(found[6], "The package must contain at least one of either 'lib.ua' or 'main.ua'.");
}

#[test]
fn one_entry_point_is_enough_where_the_other_could_not_be_looked_for() {
    let mut snapshot = snapshot();
    snapshot.library = Err("lost".to_string());
    assert_eq!(
        messages(validate_contents(&snapshot, &ValidationRules::new())),
        vec!["Failed to check for 'lib.ua': lost".to_string()]
    );
}

#[test]
fn an_archive_that_was_not_opened_has_one_issue() {
    let opened = Err("unexpected end of file".to_string());
    assert_eq!(
        messages(validate_opened(100, &opened, &ValidationRules::new())),
        vec!["Failed to read the package: unexpected end of file".to_string()]
    );
    assert_eq!(
        messages(validate_opened(5_000_001, &opened, &ValidationRules::new())),
        vec![
            "The compressed package exceeds the maximum size of 4.8 MiB bytes.".to_string(),
            "Failed to read the package: unexpected end of file".to_string(),
        ]
    );
    assert_eq!(
        messages(validate_opened(5_000_000, &opened, &ValidationRules::new())),
        vec!["Failed to read the package: unexpected end of file".to_string()]
    );
}

#[test]
fn declared_sizes_are_held_to_what_memory_can_hold() {
    assert!(declared_sizes_fit(&packed(&[])));
    assert!(declared_sizes_fit(&packed(&[("boo.json", MANIFEST.as_bytes()), ("a/b.ua", b"1")])));
    assert!(declared_sizes_fit(b"no archive at all"));
    assert!(!declared_sizes_fit(&declaring("big.bin", tar::EntryType::Regular, 1 << 40)));
    assert!(!declared_sizes_fit(&declaring("big.bin", tar::EntryType::Regular, 1 << 63)));
    assert!(!declared_sizes_fit(&declaring("big.bin", tar::EntryType::Regular, (1 << 63) + 7)));
    assert!(declared_sizes_fit(&declaring("deep", tar::EntryType::Directory, 1 << 63)));
    assert!(declared_sizes_fit(&declaring("link", tar::EntryType::Symlink, 1 << 63)));
}

#[test]
fn the_first_file_too_large_decides() {
    let mut tarball = Vec::new();
    for (path, size) in [("small.txt", 0u64), ("big.bin", 1 << 63), ("never.txt", 0)] {
        let mut header = tar::Header::new_gnu();
        header.set_path(path).unwrap();
        header.set_entry_type(tar::EntryType::Regular);
        header.set_mode(0o644);
        header.set_size(size);
        header.set_cksum();
        tarball.extend_from_slice(header.as_bytes());
    }
    tarball.extend_from_slice(&[0u8; 1024]);
    let mut encoder = GzEncoder::new(Vec::new(), Compression::default());
    encoder.write_all(&tarball).unwrap();
    let buffer = encoder.finish().unwrap();
    assert!(!declared_sizes_fit(&buffer));
    assert_eq!(unpack(&buffer).err(), Some(TOO_LARGE_TO_UNPACK.to_string()));
}

#[test]
fn unpacks_what_can_be_unpacked() {
    let buffer = packed(&[("boo.json", MANIFEST.as_bytes()), ("main.ua", b"1\n")]);
    let archive = unpack(&buffer).ok().unwrap();
    let snapshot = inspect_archive(&archive);
    assert_eq!(snapshot.listing.unwrap().len(), 2);
    assert_eq!(snapshot.program, Ok(true));
    assert_eq!(snapshot.library, Ok(false));
}

#[test]
fn does_not_unpack_what_cannot_be() {
    assert_eq!(
        unpack(&declaring("big.bin", tar::EntryType::Regular, 1 << 63)).err(),
        Some("the archive declares a file of more bytes than can be unpacked".to_string())
    );
    let garbage = unpack(b"no archive at all").err().unwrap();
    assert!(!garbage.is_empty());
    assert_ne!(garbage, TOO_LARGE_TO_UNPACK);
    let mut cut = packed(&[("boo.json", MANIFEST.as_bytes())]);
    cut.truncate(cut.len() - 12);
    assert!(unpack(&cut).is_err());
}

#[test]
fn a_declared_size_is_held_to_what_the_archive_can_unpack_to() {
    let buffer = declaring("big.bin", tar::EntryType::Regular, 4096);
    let most = 1032 * buffer.len() as u64;
    assert!(most > 4096);
    assert!(declared_sizes_fit(&declaring("big.bin", tar::EntryType::Regular, 4096)));
    let at_most = declaring("big.bin", tar::EntryType::Regular, 1000 * buffer.len() as u64);
    assert!(declared_sizes_fit(&at_most));
    assert!(1000 * buffer.len() as u64 <= 1032 * at_most.len() as u64);
    let beyond = declaring("big.bin", tar::EntryType::Regular, 2000 * buffer.len() as u64);
    assert!(2000 * buffer.len() as u64 > 1032 * beyond.len() as u64);
    assert!(!declared_sizes_fit(&beyond));
    assert_eq!(unpack(&beyond).err(), Some(TOO_LARGE_TO_UNPACK.to_string()));
}

#[test]
fn a_file_of_one_repeated_byte_can_be_unpacked() {
    let contents = vec![0u8; 6_000_000];
    let mut builder = tar::Builder::new(GzEncoder::new(Vec::new(), Compression::best()));
    let mut header = tar::Header::new_gnu();
    header.set_size(contents.len() as u64);
    header.set_mode(0o644);
    header.set_cksum();
    builder.append_data(&mut header, "zeros.bin", contents.as_slice()).unwrap();
    let buffer = builder.into_inner().unwrap().finish().unwrap();
    assert!(buffer.len() < 10_000);
    assert!(declared_sizes_fit(&buffer));
    let snapshot = inspect_archive(&unpack(&buffer).ok().unwrap());
    let listing = snapshot.listing.unwrap();
    assert_eq!(listing.len(), 1);
    assert_eq!(listing[0].path, "zeros.bin");
    assert_eq!(listing[0].size, 6_000_000);
}
