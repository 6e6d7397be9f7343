use rbmt::cli::{
    cargo_term_settings, is_quiet, log_level_variable, package_filter_args, strip_subcommand,
    DocsBuild, Task,
};
use rbmt::integration::{versions_to_test, UnknownVersion};
use rbmt::lint::{
    clippy_config_files, duplicates_message, duplicates_report, find_duplicates,
    misplaced_msrv_message, misplaced_msrv_report,
};
use rbmt::metadata::{
    binaries_of, crate_directories, find_by_manifest, fuzz_targets, missing_msrv_message, msrv_of,
    publish_directory, version_features, workspace_packages, PackageMetadata, PublishDirError,
    TargetMetadata,
};
use rbmt::packages::PackageInfo;
use rbmt::prerelease::{is_blocker, issues_heading, issues_message, scan_source, Issue};
use rbmt::toolchain::Toolchain;

fn names(list: &[&str]) -> Vec<String> {
    list.iter().map(|name| name.to_string()).collect()
}

fn some(text: &str) -> Option<String> {
    Some(text.to_string())
}

fn described(name: &str, version: &str, manifest: &str) -> PackageMetadata {
    PackageMetadata {
        name: some(name),
        version: some(version),
        manifest_path: some(manifest),
        ..PackageMetadata::default()
    }
}

fn target(name: Option<&str>, kinds: Option<&[Option<&str>]>) -> TargetMetadata {
    TargetMetadata {
        name: name.map(str::to_string),
        kinds: kinds.map(|list| list.iter().map(|kind| kind.map(str::to_string)).collect()),
    }
}

#[test]
fn lock_file_is_restored_before_most_tasks() {
    for task in [Task::Lint, Task::Docs, Task::Docsrs, Task::Bench, Task::Test, Task::Prerelease, Task::Api] {
        assert!(task.restores_lock_file());
    }
    assert!(!Task::Lock.restores_lock_file());
    assert!(!Task::Integration.restores_lock_file());
}

#[test]
fn subcommand_name_is_dropped() {
    assert_eq!(
        strip_subcommand(names(&["cargo-rbmt", "rbmt", "test", "stable"])),
        names(&["cargo-rbmt", "test", "stable"])
    );
    assert_eq!(
        strip_subcommand(names(&["cargo-rbmt", "test", "rbmt"])),
        names(&["cargo-rbmt", "test", "rbmt"])
    );
    assert_eq!(strip_subcommand(names(&["rbmt"])), names(&["rbmt"]));
    assert_eq!(strip_subcommand(names(&["x", "rbmt", "rbmt"])), names(&["x", "rbmt"]));
    assert_eq!(strip_subcommand(names(&[])), names(&[]));
}

#[test]
fn quiet_mode_needs_the_exact_word() {
    assert!(is_quiet(Some("quiet")));
    assert!(!is_quiet(Some("QUIET")));
    assert!(!is_quiet(Some("")));
    assert!(!is_quiet(None));
    assert_eq!(log_level_variable(), "RBMT_LOG_LEVEL");
    assert_eq!(cargo_term_settings(true), ("false", "true"));
    assert_eq!(cargo_term_settings(false), ("true", "false"));
}

#[test]
fn package_filter_names_each_package() {
    assert_eq!(package_filter_args(&names(&["a", "b"])), vec!["-p", "a", "-p", "b"]);
    assert!(package_filter_args(&names(&[])).is_empty());
}

#[test]
fn documentation_builds() {
    assert_eq!(DocsBuild::Users.toolchain(), Toolchain::Stable);
    assert_eq!(DocsBuild::Host.toolchain(), Toolchain::Nightly);
    assert_eq!(DocsBuild::Users.rustdoc_flags(), "-D warnings");
    assert_eq!(
        DocsBuild::Host.rustdoc_flags(),
        "--cfg docsrs -D warnings -D rustdoc::broken-intra-doc-links"
    );
}

#[test]
fn duplicates_are_the_lines_that_name_crates() {
    let tree = "base64 v0.13.1\n└── bitcoin v0.32.2\n\nbase64 v0.21.7\n├── x\n  indented\nhex v1\n٣three\n";
    assert_eq!(
        find_duplicates(tree, &names(&[])),
        vec!["base64 v0.13.1", "base64 v0.21.7", "hex v1", "٣three"]
    );
    assert_eq!(find_duplicates(tree, &names(&["base64"])), vec!["hex v1", "٣three"]);
    assert_eq!(find_duplicates(tree, &names(&["v0.13", "hex"])), vec!["base64 v0.21.7", "٣three"]);
    assert!(find_duplicates(tree, &names(&[""])).is_empty());
    assert!(find_duplicates("", &names(&[])).is_empty());
    assert!(find_duplicates("-a\n_b\n c\n", &names(&[])).is_empty());
}

#[test]
fn lint_reports() {
    assert_eq!(
        duplicates_report(&names(&["base64 v0.13.1", "hex v1"])),
        vec!["Error: Found duplicate dependencies in workspace!", "  base64 v0.13.1", "  hex v1"]
    );
    assert_eq!(duplicates_message(), "Dependency tree contains duplicates");
    assert_eq!(clippy_config_files(), vec!["clippy.toml", ".clippy.toml"]);
    assert_eq!(
        misplaced_msrv_report(&names(&["/repo/clippy.toml"])),
        vec![
            "\nError: Found MSRV in clippy.toml, use Cargo.toml package.rust-version instead:",
            "  /repo/clippy.toml"
        ]
    );
    assert_eq!(misplaced_msrv_message(), "MSRV should be specified in Cargo.toml, not clippy.toml");
}

#[test]
fn notes_block_a_release() {
    assert!(is_blocker("    // TODO: finish"));
    assert!(is_blocker("/* TODO */"));
    assert!(is_blocker("x // FIXME"));
    assert!(is_blocker("/* FIXME"));
    assert!(is_blocker("let v = \"TBD\";"));
    assert!(is_blocker("#![cfg_attr(docsrs, feature(doc_auto_cfg))]"));
    assert!(!is_blocker("// todo"));
    assert!(!is_blocker("//TODO"));
    assert!(!is_blocker("TBD"));
    assert!(!is_blocker(""));
}

#[test]
fn sources_are_scanned_line_by_line() {
    let contents = "fn a() {}\n  // TODO one\r\nfn b() {}\n\t/* FIXME two */  \n";
    let issues = scan_source("src/lib.rs", contents);
    assert_eq!(
        issues,
        vec![
            Issue { file: "src/lib.rs".to_string(), line: 1, text: "  // TODO one".to_string() },
            Issue {
                file: "src/lib.rs".to_string(),
                line: 3,
                text: "\t/* FIXME two */  ".to_string()
            },
        ]
    );
    assert_eq!(issues[0].report_line(), "src/lib.rs:1:// TODO one");
    assert_eq!(issues[1].report_line(), "src/lib.rs:3:/* FIXME two */");
    assert!(scan_source("a.rs", "fn main() {}\n").is_empty());
    assert_eq!(issues_heading(2), "Found 2 pre-release issue(s):");
    assert_eq!(issues_message(12), "Found 12 pre-release issues");
}

#[test]
fn configured_versions_must_be_on_offer() {
    let available = names(&["27_2", "28_2", "29_0"]);
    assert_eq!(versions_to_test(&None, available.clone()), Ok(available.clone()));
    assert_eq!(
        versions_to_test(&Some(names(&["29_0", "27_2"])), available.clone()),
        Ok(names(&["29_0", "27_2"]))
    );
    assert_eq!(versions_to_test(&Some(names(&[])), available.clone()), Ok(names(&[])));
    let error =
        versions_to_test(&Some(names(&["29_0", "30_0", "31_0"])), available.clone()).unwrap_err();
    assert_eq!(error, UnknownVersion { requested: "30_0".to_string(), available });
    assert_eq!(
        error.message(),
        "Requested version '30_0' not found in available versions: 27_2, 28_2, 29_0"
    );
}

#[test]
fn workspace_packages_need_name_and_manifest() {
    let packages = vec![
        described("bitcoin", "0.32.2", "/repo/bitcoin/Cargo.toml"),
        PackageMetadata { name: some("nameless-path"), ..PackageMetadata::default() },
        PackageMetadata { manifest_path: some("/repo/x/Cargo.toml"), ..PackageMetadata::default() },
        described("units", "0.1.2", "/repo/units/Cargo.toml"),
    ];
    assert_eq!(
        workspace_packages(&packages),
        vec![
            PackageInfo { name: "bitcoin".to_string(), directory: "/repo/bitcoin".to_string() },
            PackageInfo { name: "units".to_string(), directory: "/repo/units".to_string() },
        ]
    );
    assert_eq!(crate_directories(&packages), vec!["/repo/bitcoin", "/repo/x", "/repo/units"]);
}

#[test]
fn msrv_is_read_from_the_package_at_the_manifest() {
    let mut packages = vec![
        described("bitcoin", "0.32.2", "/repo/bitcoin/Cargo.toml"),
        described("units", "0.1.2", "/repo/units/Cargo.toml"),
        described("units-twin", "9.9.9", "/repo/units/Cargo.toml"),
    ];
    packages[1].rust_version = some("1.63.0");
    packages[2].rust_version = some("1.74.0");
    assert_eq!(find_by_manifest(&packages, "/repo/units/Cargo.toml"), Some(1));
    assert_eq!(msrv_of(&packages, "/repo/units/Cargo.toml"), some("1.63.0"));
    assert_eq!(msrv_of(&packages, "/repo/bitcoin/Cargo.toml"), None);
    assert_eq!(msrv_of(&packages, "/repo/other/Cargo.toml"), None);
    assert_eq!(
        missing_msrv_message("/repo/bitcoin/Cargo.toml"),
        "No MSRV (rust-version) specified in /repo/bitcoin/Cargo.toml"
    );
}

#[test]
fn publish_directory_names_package_and_version() {
    let packages = vec![
        described("bitcoin", "0.32.2", "/repo/bitcoin/Cargo.toml"),
        described("units", "0.1.2", "/repo/units/Cargo.toml"),
    ];
    assert_eq!(
        publish_directory("/repo/target", &packages, "/repo/units/Cargo.toml"),
        Ok("/repo/target/package/units-0.1.2".to_string())
    );
    let error = publish_directory("/t", &packages, "/elsewhere/Cargo.toml").unwrap_err();
    assert_eq!(error, PublishDirError::NotFound);
    assert_eq!(error.message(), "Could not find current package in cargo metadata");
}

#[test]
fn publish_directory_needs_every_field() {
    let pathless = PackageMetadata { name: some("a"), ..PackageMetadata::default() };
    let packages = vec![pathless, described("units", "0.1.2", "/repo/units/Cargo.toml")];
    let error = publish_directory("/t", &packages, "/repo/units/Cargo.toml").unwrap_err();
    assert_eq!(error, PublishDirError::MissingManifestPath);
    assert_eq!(error.message(), "Missing manifest_path in package");
    let mut nameless = described("units", "0.1.2", "/m");
    nameless.name = None;
    nameless.version = None;
    let error = publish_directory("/t", &vec![nameless], "/m").unwrap_err();
    assert_eq!(error, PublishDirError::MissingName);
    assert_eq!(error.message(), "Missing name in package");
    let mut versionless = described("units", "0.1.2", "/m");
    versionless.version = None;
    let later = PackageMetadata::default();
    let error = publish_directory("/t", &vec![versionless, later], "/m").unwrap_err();
    assert_eq!(error, PublishDirError::MissingVersion);
    assert_eq!(error.message(), "Missing version in package");
}

#[test]
fn fuzz_targets_are_the_sorted_binaries() {
    let mut fuzz = described("fuzz", "0.0.1", "/repo/fuzz/Cargo.toml");
    fuzz.targets = Some(vec![
        target(Some("units_parse"), Some(&[Some("bin")])),
        target(Some("a_lib"), Some(&[Some("lib")])),
        target(Some("bitcoin_decode"), Some(&[Some("example"), None, Some("bin")])),
        target(None, Some(&[Some("bin")])),
        target(Some("kindless"), None),
        target(Some("empty"), Some(&[])),
    ]);
    let mut second = described("fuzz", "0.0.2", "/repo/other/Cargo.toml");
    second.targets = Some(vec![target(Some("ignored"), Some(&[Some("bin")]))]);
    let packages = vec![described("bitcoin", "0.32.2", "/b"), fuzz.clone(), second];
    assert_eq!(fuzz_targets(&packages, "fuzz"), vec!["bitcoin_decode", "units_parse"]);
    assert!(fuzz_targets(&packages, "bitcoin").is_empty());
    assert!(fuzz_targets(&packages, "absent").is_empty());
    assert_eq!(
        binaries_of(fuzz.targets.as_ref().unwrap()),
        vec!["units_parse", "bitcoin_decode"]
    );
}

#[test]
fn version_features_come_from_the_first_package() {
    let mut first = described("bitcoind-tests", "0.1.0", "/i/Cargo.toml");
    first.features = Some(names(&["29_0", "27_2", "28_2", "0_17_2"]));
    let mut second = described("other", "0.1.0", "/o/Cargo.toml");
    second.features = Some(names(&["zzz"]));
    assert_eq!(
        version_features(&vec![first, second.clone()]),
        vec!["0_17_2", "27_2", "28_2", "29_0"]
    );
    assert!(version_features(&vec![]).is_empty());
    assert!(version_features(&vec![described("x", "1", "/x"), second]).is_empty());
}
