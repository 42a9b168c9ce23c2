use boo::common::BooPackageDefinition;
use boo::name::{split_name, validate_package_name, validate_package_name_piece};

fn fault(name: &str) -> String {
    match validate_package_name(&name.to_string()) {
        Ok(accepted) => panic!("accepted {}", accepted),
        Err(error) => error.message,
    }
}

#[test]
fn accepts_a_plain_name() {
    assert_eq!(validate_package_name(&"scope/package".to_string()).unwrap(), "scope/package");
    assert_eq!(validate_package_name(&"a1/b-2".to_string()).unwrap(), "a1/b-2");
    assert_eq!(validate_package_name(&"AB/Cd".to_string()).unwrap(), "AB/Cd");
}

#[test]
fn rejects_an_empty_name() {
    assert_eq!(fault(""), "package name cannot be empty");
}

#[test]
fn rejects_a_name_without_separator() {
    assert_eq!(fault("package"), "package name must contain exactly one '/'");
    assert_eq!(fault("-"), "package name must contain exactly one '/'");
}

#[test]
fn rejects_a_name_with_two_separators() {
    assert_eq!(fault("a/b/c"), "package name must contain exactly one '/'");
    assert_eq!(fault("//"), "package name must contain exactly one '/'");
}

#[test]
fn rejects_empty_pieces() {
    assert_eq!(fault("/package"), "scope name cannot be empty");
    assert_eq!(fault("scope/"), "package name cannot be empty");
    assert_eq!(fault("/"), "scope name cannot be empty");
}

#[test]
fn leading_special_character_is_told_of_the_scope() {
    assert_eq!(
        fault("@ok/thing"),
        "scope name can only contain alphanumeric characters and dashes"
    );
}

#[test]
fn rejects_other_characters_in_the_package() {
    assert_eq!(
        fault("scope/pack_age"),
        "package name can only contain alphanumeric characters and dashes"
    );
    assert_eq!(
        fault("scope/caf\u{e9}"),
        "package name can only contain alphanumeric characters and dashes"
    );
}

#[test]
fn rejects_dashes_at_the_edges() {
    assert_eq!(fault("-scope/package"), "scope name cannot start or end with a dash");
    assert_eq!(fault("scope-/package"), "scope name cannot start or end with a dash");
    assert_eq!(fault("scope/-package"), "package name cannot start or end with a dash");
    assert_eq!(fault("scope/package-"), "package name cannot start or end with a dash");
    assert_eq!(fault("scope/-"), "package name cannot start or end with a dash");
}

#[test]
fn rejects_consecutive_dashes() {
    assert_eq!(fault("sc--ope/package"), "scope name cannot contain consecutive dashes");
    assert_eq!(fault("scope/pack--age"), "package name cannot contain consecutive dashes");
}

#[test]
fn an_earlier_rule_wins_over_consecutive_dashes() {
    assert_eq!(fault("-sc--ope/package"), "scope name cannot start or end with a dash");
    assert_eq!(
        fault("sc--o_pe/package"),
        "scope name can only contain alphanumeric characters and dashes"
    );
}

#[test]
fn holds_pieces_to_their_length() {
    assert_eq!(fault("a/package"), "scope name must be between 2 and 32 characters long");
    assert_eq!(fault("scope/b"), "package name must be between 2 and 32 characters long");
    let longest = "a".repeat(32);
    let too_long = "a".repeat(33);
    assert!(validate_package_name(&format!("{}/{}", longest, longest)).is_ok());
    assert!(validate_package_name(&"ab/cd".to_string()).is_ok());
    assert_eq!(
        fault(&format!("{}/ab", too_long)),
        "scope name must be between 2 and 32 characters long"
    );
    assert_eq!(
        fault(&format!("ab/{}", too_long)),
        "package name must be between 2 and 32 characters long"
    );
}

#[test]
fn the_scope_is_checked_before_the_package() {
    assert_eq!(fault("a/-"), "scope name must be between 2 and 32 characters long");
}

#[test]
fn checks_a_piece_by_itself() {
    assert!(validate_package_name_piece("ab-cd", "piece").is_ok());
    assert_eq!(
        validate_package_name_piece("", "piece").unwrap_err().message,
        "piece cannot be empty"
    );
    assert_eq!(
        validate_package_name_piece("a/b", "piece").unwrap_err().message,
        "piece can only contain alphanumeric characters and dashes"
    );
}

#[test]
fn splits_a_name_at_its_first_separator() {
    assert_eq!(split_name("scope/package"), ("scope".to_string(), "package".to_string()));
    assert_eq!(split_name("a/b/c"), ("a".to_string(), "b/c".to_string()));
    assert_eq!(split_name("alone"), ("alone".to_string(), String::new()));
    assert_eq!(split_name("scope/"), ("scope".to_string(), String::new()));
    assert_eq!(split_name(""), (String::new(), String::new()));
}

#[test]
fn names_the_archive_file() {
    let definition = BooPackageDefinition {
        name: "@foo/bar".to_string(),
        version: "1.2.3".to_string(),
        includes: vec![],
    };
    assert_eq!(definition.package_file_name(), "foo-bar-1.2.3");
    let plain = BooPackageDefinition {
        name: "a/b/c@d".to_string(),
        version: "0.1.0".to_string(),
        includes: vec![],
    };
    assert_eq!(plain.package_file_name(), "a-b-cd-0.1.0");
}

#[test]
fn refers_to_a_version() {
    let definition = BooPackageDefinition {
        name: "foo/bar".to_string(),
        version: "1.2.3".to_string(),
        includes: vec!["**/*.ua".to_string()],
    };
    assert_eq!(definition.version_reference(), "foo/bar@1.2.3");
}
