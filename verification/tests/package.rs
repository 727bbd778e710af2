use cargo_update_installed::error::{IdentifierError, ParseError};
use cargo_update_installed::package::Package;
use cargo_update_installed::source::PackageSource;

fn malformed(id: &str) -> Result<Package, IdentifierError> {
    Err(IdentifierError { input: id.to_owned(), error: ParseError::MalformedIdentifier })
}

#[test]
fn registry_identifier_parses() {
    let package =
        Package::from_str("bat 0.18.0 (registry+https://github.com/rust-lang/crates.io-index)")
            .unwrap();
    assert_eq!(package.name, "bat");
    assert_eq!(package.version, "0.18.0");
    assert_eq!(
        package.source,
        PackageSource::Registry("https://github.com/rust-lang/crates.io-index".to_owned())
    );
}

#[test]
fn git_identifier_parses() {
    let package = Package::from_str(
        "bcut 1.0.2 (git+https://github.com/aswild/bcut#046894ca312298f260775687a87bd1f3b7df8e55)",
    )
    .unwrap();
    assert_eq!(
        package,
        Package {
            name: "bcut".to_owned(),
            version: "1.0.2".to_owned(),
            source: PackageSource::Git {
                url: "https://github.com/aswild/bcut".to_owned(),
                branch: None,
                tag: None,
            },
        }
    );
}

#[test]
fn path_identifier_parses() {
    let package = Package::from_str(
        "cargo-update-installed 0.1.0 (path+file:///workspace/cargo-update-installed)",
    )
    .unwrap();
    assert_eq!(package.name, "cargo-update-installed");
    assert_eq!(package.version, "0.1.0");
    assert_eq!(
        package.source,
        PackageSource::Path("/workspace/cargo-update-installed".to_owned())
    );
}

#[test]
fn branch_identifier_parses_without_fragment() {
    let package =
        Package::from_str("bcut 1.0.2 (git+https://example.com/repo?branch=main#abcdef)").unwrap();
    assert_eq!(
        package.source,
        PackageSource::Git {
            url: "https://example.com/repo".to_owned(),
            branch: Some("main".to_owned()),
            tag: None,
        }
    );
}

#[test]
fn version_is_not_examined() {
    let package = Package::from_str("tool not-a-version (registry+https://example.com/)").unwrap();
    assert_eq!(package.version, "not-a-version");
}

#[test]
fn names_beyond_ascii_parse() {
    let package = Package::from_str("bät β1 (registry+https://example.com/)").unwrap();
    assert_eq!(package.name, "bät");
    assert_eq!(package.version, "β1");
}

#[test]
fn source_runs_to_the_last_bracket() {
    let package =
        Package::from_str("tool 1.0 (path+file:///work/a (copy)/x)").unwrap();
    assert_eq!(package.source, PackageSource::Path("/work/a%20(copy)/x".to_owned()));
}

#[test]
fn identifier_without_brackets_is_malformed() {
    let id = "bat 0.18.0 registry+https://example.com/index";
    assert_eq!(Package::from_str(id), malformed(id));
    let id = "bat 0.18.0 (registry+https://example.com/index";
    assert_eq!(Package::from_str(id), malformed(id));
    let id = "bat 0.18.0 registry+https://example.com/index)";
    assert_eq!(Package::from_str(id), malformed(id));
}

#[test]
fn identifier_with_extra_token_is_malformed() {
    let id = "bat 0.18.0 extra (registry+https://example.com/index)";
    assert_eq!(Package::from_str(id), malformed(id));
}

#[test]
fn identifier_with_missing_token_is_malformed() {
    let id = "bat (registry+https://example.com/index)";
    assert_eq!(Package::from_str(id), malformed(id));
    let id = "(registry+https://example.com/index)";
    assert_eq!(Package::from_str(id), malformed(id));
}

#[test]
fn identifier_with_empty_name_is_malformed() {
    let id = " 0.18.0 (registry+https://example.com/index)";
    assert_eq!(Package::from_str(id), malformed(id));
    assert_eq!(Package::from_str(""), malformed(""));
}

#[test]
fn identifier_with_empty_source_is_malformed() {
    let id = "bat 0.18.0 ()";
    assert_eq!(Package::from_str(id), malformed(id));
}

#[test]
fn identifier_with_trailing_text_is_malformed() {
    let id = "bat 0.18.0 (registry+https://example.com/index) ";
    assert_eq!(Package::from_str(id), malformed(id));
    let id = "bat 0.18.0 (registry+https://example.com/index)\n";
    assert_eq!(Package::from_str(id), malformed(id));
}

#[test]
fn identifier_with_other_separators_is_malformed() {
    let id = "bat\t0.18.0 (registry+https://example.com/index)";
    assert_eq!(Package::from_str(id), malformed(id));
    let id = "bat  0.18.0 (registry+https://example.com/index)";
    assert_eq!(Package::from_str(id), malformed(id));
    let id = "bat 0.18.0  (registry+https://example.com/index)";
    assert_eq!(Package::from_str(id), malformed(id));
    let id = "bat\u{a0}x 0.18.0 (registry+https://example.com/index)";
    assert_eq!(Package::from_str(id), malformed(id));
    let id = "bat 0.18.0\u{3000}(registry+https://example.com/index)";
    assert_eq!(Package::from_str(id), malformed(id));
}

#[test]
fn identifier_with_line_break_in_source_is_malformed() {
    let id = "bat 0.18.0 (registry+https://example.com/\nindex)";
    assert_eq!(Package::from_str(id), malformed(id));
}

#[test]
fn shortest_identifier_parses_up_to_its_source() {
    assert_eq!(
        Package::from_str("a b (c)"),
        Err(IdentifierError { input: "a b (c)".to_owned(), error: ParseError::MissingSourceKind })
    );
}

#[test]
fn source_failure_keeps_the_identifier() {
    let id = "tool 1.0 (svn+http://example.com)";
    assert_eq!(
        Package::from_str(id),
        Err(IdentifierError {
            input: id.to_owned(),
            error: ParseError::UnknownSourceKind("svn".to_owned()),
        })
    );
    let id = "tool 1.0 (git+https://example.com/repo?ref=foo)";
    assert_eq!(
        Package::from_str(id),
        Err(IdentifierError {
            input: id.to_owned(),
            error: ParseError::UnknownQueryParameter("ref".to_owned()),
        })
    );
    let id = "tool 1.0 (registry+)";
    assert_eq!(
        Package::from_str(id),
        Err(IdentifierError { input: id.to_owned(), error: ParseError::EmptyUrl })
    );
    let id = "tool 1.0 (registry+::)";
    assert_eq!(
        Package::from_str(id),
        Err(IdentifierError {
            input: id.to_owned(),
            error: ParseError::InvalidUrl("relative URL without a base".to_owned()),
        })
    );
}

#[test]
fn identifier_parses_through_the_std_trait() {
    let package: Package = "bat 0.18.0 (registry+https://example.com/index)".parse().unwrap();
    assert_eq!(package.name, "bat");
    let failed: Result<Package, IdentifierError> = "bat".parse();
    assert_eq!(failed, malformed("bat"));
}

#[test]
fn messages_name_what_was_wrong() {
    assert_eq!(ParseError::MalformedIdentifier.message(), "couldn't parse package name");
    assert_eq!(ParseError::MissingSourceKind.message(), "No package source kind found");
    assert_eq!(ParseError::EmptyUrl.message(), "Package source URL is empty");
    assert_eq!(
        ParseError::InvalidUrl("empty host".to_owned()).message(),
        "Failed to parse package source URL: empty host"
    );
    assert_eq!(
        ParseError::UnknownQueryParameter("ref".to_owned()).message(),
        "Unknown URL query parameter 'ref'"
    );
    assert_eq!(
        ParseError::UnknownSourceKind("svn".to_owned()).message(),
        "Unknown package source kind 'svn'"
    );
    let error = Package::from_str("tool 1.0 (svn+http://example.com)").unwrap_err();
    assert_eq!(
        error.message(),
        "Failed to parse package id 'tool 1.0 (svn+http://example.com)': Unknown package source kind 'svn'"
    );
}
