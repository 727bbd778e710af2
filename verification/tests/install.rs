use cargo_update_installed::args::PushStr;
use cargo_update_installed::details::PackageDetails;
use cargo_update_installed::error::{IdentifierError, ParseError};
use cargo_update_installed::filter::{any, should_include};
use cargo_update_installed::install::{cargo_install_args, failure_report, install_command};
use cargo_update_installed::package::Package;
use cargo_update_installed::source::PackageSource;
use cargo_update_installed::text::{chars_of, end_of_token, index_of, is_space, join, same_text};

fn texts(items: &[&str]) -> Vec<String> {
    items.iter().map(|s| (*s).to_owned()).collect()
}

fn details(features: &[&str], all_features: bool, no_default_features: bool) -> PackageDetails {
    PackageDetails {
        version_req: None,
        bins: texts(&["tool"]),
        features: texts(features),
        all_features,
        no_default_features,
        profile: "release".to_owned(),
        target: "x86_64-unknown-linux-gnu".to_owned(),
        rustc: "rustc 1.70.0 (90c541806 2023-05-31)".to_owned(),
    }
}

fn details_args(details: &PackageDetails) -> Vec<String> {
    let mut args = Vec::new();
    details.add_cargo_args(&mut args);
    args
}

#[test]
fn registry_install_end_to_end() {
    let args = install_command(
        "bat 0.18.0 (registry+https://example.com/index)",
        &details(&[], false, false),
        false,
        false,
    )
    .unwrap();
    assert_eq!(
        args,
        vec![
            "install",
            "--target",
            "x86_64-unknown-linux-gnu",
            "--index",
            "https://example.com/index",
            "bat"
        ]
    );
}

#[test]
fn git_branch_install_end_to_end() {
    let id = "bcut 1.0.2 (git+https://example.com/repo?branch=main#abcdef)";
    let package = Package::from_str(id).unwrap();
    assert_eq!(
        package.source,
        PackageSource::Git {
            url: "https://example.com/repo".to_owned(),
            branch: Some("main".to_owned()),
            tag: None,
        }
    );
    let args = install_command(id, &details(&[], false, false), false, false).unwrap();
    assert_eq!(
        args,
        vec![
            "install",
            "--target",
            "x86_64-unknown-linux-gnu",
            "--git",
            "https://example.com/repo",
            "--branch",
            "main",
            "bcut"
        ]
    );
    assert!(args.iter().all(|a| !a.contains('#') && !a.contains("abcdef")));
}

#[test]
fn every_flag_comes_in_its_place() {
    let args = install_command(
        "tool 2.0.0 (git+https://example.com/repo?tag=v2&branch=dev)",
        &details(&["b", "a", "c"], true, true),
        true,
        true,
    )
    .unwrap();
    assert_eq!(
        args,
        vec![
            "install",
            "--force",
            "--locked",
            "--features",
            "b,a,c",
            "--all-features",
            "--no-default-features",
            "--target",
            "x86_64-unknown-linux-gnu",
            "--git",
            "https://example.com/repo",
            "--branch",
            "dev",
            "--tag",
            "v2",
            "tool"
        ]
    );
}

#[test]
fn force_and_locked_are_apart() {
    let id = "tool 1.0 (path+file:///work/tool)";
    let plain = details(&[], false, false);
    assert_eq!(
        install_command(id, &plain, true, false).unwrap(),
        vec![
            "install",
            "--force",
            "--target",
            "x86_64-unknown-linux-gnu",
            "--path",
            "/work/tool",
            "tool"
        ]
    );
    assert_eq!(
        install_command(id, &plain, false, true).unwrap(),
        vec![
            "install",
            "--locked",
            "--target",
            "x86_64-unknown-linux-gnu",
            "--path",
            "/work/tool",
            "tool"
        ]
    );
}

#[test]
fn install_command_hands_the_parse_error_on() {
    let plain = details(&[], false, false);
    assert_eq!(
        install_command("bat", &plain, false, false),
        Err(IdentifierError { input: "bat".to_owned(), error: ParseError::MalformedIdentifier })
    );
    let id = "bat 1.0 (svn+http://example.com)";
    assert_eq!(
        install_command(id, &plain, true, true),
        Err(IdentifierError {
            input: id.to_owned(),
            error: ParseError::UnknownSourceKind("svn".to_owned()),
        })
    );
}

#[test]
fn arguments_of_a_parsed_package() {
    let package = Package {
        name: "tool".to_owned(),
        version: "1.0".to_owned(),
        source: PackageSource::Registry("https://example.com/index".to_owned()),
    };
    assert_eq!(
        cargo_install_args(&package, &details(&["x"], false, false), false, true),
        vec![
            "install",
            "--locked",
            "--features",
            "x",
            "--target",
            "x86_64-unknown-linux-gnu",
            "--index",
            "https://example.com/index",
            "tool"
        ]
    );
}

#[test]
fn details_without_options_give_the_target_alone() {
    assert_eq!(
        details_args(&details(&[], false, false)),
        vec!["--target", "x86_64-unknown-linux-gnu"]
    );
}

#[test]
fn details_join_the_features_with_commas() {
    assert_eq!(
        details_args(&details(&["serde", "cli"], false, false)),
        vec!["--features", "serde,cli", "--target", "x86_64-unknown-linux-gnu"]
    );
    assert_eq!(
        details_args(&details(&["one"], false, false)),
        vec!["--features", "one", "--target", "x86_64-unknown-linux-gnu"]
    );
}

#[test]
fn details_hand_on_the_feature_switches() {
    assert_eq!(
        details_args(&details(&[], true, false)),
        vec!["--all-features", "--target", "x86_64-unknown-linux-gnu"]
    );
    assert_eq!(
        details_args(&details(&[], false, true)),
        vec!["--no-default-features", "--target", "x86_64-unknown-linux-gnu"]
    );
}

#[test]
fn details_never_hand_on_profile_and_compiler() {
    let mut recorded = details(&["f"], true, true);
    recorded.profile = "debug".to_owned();
    recorded.rustc = "rustc 1.0.0".to_owned();
    recorded.version_req = Some("^1".to_owned());
    let args = details_args(&recorded);
    assert_eq!(
        args,
        vec![
            "--features",
            "f",
            "--all-features",
            "--no-default-features",
            "--target",
            "x86_64-unknown-linux-gnu"
        ]
    );
}

#[test]
fn details_append_to_what_is_there() {
    let mut args = texts(&["install", "--force"]);
    details(&[], false, false).add_cargo_args(&mut args);
    assert_eq!(args, vec!["install", "--force", "--target", "x86_64-unknown-linux-gnu"]);
}

#[test]
fn push_str_appends_and_chains() {
    let mut args: Vec<String> = Vec::new();
    args.push_str("--index").push_str("https://example.com/");
    assert_eq!(args, vec!["--index", "https://example.com/"]);
    args.push_str("bat");
    assert_eq!(args, vec!["--index", "https://example.com/", "bat"]);
}

#[test]
fn join_puts_the_separator_between_neighbours() {
    assert_eq!(join(&texts(&[]), ","), "");
    assert_eq!(join(&texts(&["a"]), ","), "a");
    assert_eq!(join(&texts(&["a", "b", "c"]), ", "), "a, b, c");
    assert_eq!(join(&texts(&["", ""]), "-"), "-");
}

#[test]
fn failure_report_names_the_packages() {
    assert_eq!(failure_report(&texts(&[])), None);
    assert_eq!(
        failure_report(&texts(&["bat"])),
        Some("Failed to install some packages: bat".to_owned())
    );
    assert_eq!(
        failure_report(&texts(&["bat", "bcut"])),
        Some("Failed to install some packages: bat, bcut".to_owned())
    );
}

#[test]
fn packages_are_taken_in_without_patterns() {
    assert!(should_include(&vec![], &vec![]));
}

#[test]
fn a_match_among_the_wanted_takes_in() {
    assert!(should_include(&vec![false, true], &vec![]));
    assert!(!should_include(&vec![false, false], &vec![]));
    assert!(should_include(&vec![true], &vec![false]));
}

#[test]
fn a_match_among_the_unwanted_leaves_out() {
    assert!(!should_include(&vec![], &vec![true]));
    assert!(!should_include(&vec![true], &vec![false, true]));
    assert!(should_include(&vec![], &vec![false, false]));
}

#[test]
fn any_finds_a_set_flag() {
    assert!(!any(&vec![]));
    assert!(!any(&vec![false, false]));
    assert!(any(&vec![false, false, true]));
}

#[test]
fn text_helpers_scan_characters() {
    let chars = chars_of("añb c+d");
    assert_eq!(chars, vec!['a', 'ñ', 'b', ' ', 'c', '+', 'd']);
    assert_eq!(index_of(&chars, '+', 0), 5);
    assert_eq!(index_of(&chars, '+', 6), 7);
    assert_eq!(index_of(&chars, 'a', 0), 0);
    assert_eq!(end_of_token(&chars, 0), 3);
    assert_eq!(end_of_token(&chars, 3), 3);
    assert_eq!(end_of_token(&chars, 4), 7);
    assert!(same_text("abc", "abc"));
    assert!(!same_text("abc", "abd"));
}

#[test]
fn white_space_is_what_unicode_says() {
    for c in ['\t', '\n', '\u{b}', '\u{c}', '\r', ' ', '\u{85}', '\u{a0}', '\u{1680}', '\u{2000}',
        '\u{200a}', '\u{2028}', '\u{2029}', '\u{202f}', '\u{205f}', '\u{3000}']
    {
        assert!(is_space(c));
    }
    for c in ['a', '0', '(', '\u{8}', '\u{e}', '\u{200b}', '\u{180e}', '\u{feff}'] {
        assert!(!is_space(c));
    }
    let mut c = '\0';
    while c < '\u{3100}' {
        assert_eq!(is_space(c), c.is_whitespace());
        c = char::from_u32(c as u32 + 1).unwrap();
    }
}

#[test]
fn every_recorded_install_gives_its_command() {
    let mut installs = std::collections::BTreeMap::new();
    installs.insert(
        "bat 0.18.0 (registry+https://example.com/index)".to_owned(),
        details(&[], false, false),
    );
    installs.insert(
        "bcut 1.0.2 (git+https://example.com/repo?branch=main#abcdef)".to_owned(),
        details(&["fast"], false, true),
    );
    installs.insert("broken".to_owned(), details(&[], false, false));
    let recorded = cargo_update_installed::Crates2 { installs };
    let commands: Vec<Result<Vec<String>, IdentifierError>> = recorded
        .installs
        .iter()
        .map(|(id, options)| install_command(id, options, false, true))
        .collect();
    assert_eq!(commands.len(), 3);
    assert_eq!(
        commands[0],
        Ok(texts(&[
            "install",
            "--locked",
            "--target",
            "x86_64-unknown-linux-gnu",
            "--index",
            "https://example.com/index",
            "bat"
        ]))
    );
    assert_eq!(
        commands[1],
        Ok(texts(&[
            "install",
            "--locked",
            "--features",
            "fast",
            "--no-default-features",
            "--target",
            "x86_64-unknown-linux-gnu",
            "--git",
            "https://example.com/repo",
            "--branch",
            "main",
            "bcut"
        ]))
    );
    assert_eq!(
        commands[2],
        Err(IdentifierError { input: "broken".to_owned(), error: ParseError::MalformedIdentifier })
    );
}
