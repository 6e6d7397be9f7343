use rbmt::catalog::{catalog, FeatureConfig};
use rbmt::extract::{
    api_dir, doc_file_name, drift_message, has_drift, rustdoc_args, rustdoc_flags, CheckMode,
};

#[test]
fn catalog_lists_every_configuration_in_order() {
    assert_eq!(
        catalog(),
        vec![FeatureConfig::NoFeatures, FeatureConfig::Alloc, FeatureConfig::All]
    );
}

#[test]
fn filenames_are_stable() {
    assert_eq!(FeatureConfig::NoFeatures.filename(), "no-features.txt");
    assert_eq!(FeatureConfig::Alloc.filename(), "alloc-only.txt");
    assert_eq!(FeatureConfig::All.filename(), "all-features.txt");
}

#[test]
fn display_names_are_stable() {
    assert_eq!(FeatureConfig::NoFeatures.display_name(), "no-features");
    assert_eq!(FeatureConfig::Alloc.display_name(), "alloc-only");
    assert_eq!(FeatureConfig::All.display_name(), "all-features");
}

#[test]
fn cargo_args_select_the_configuration() {
    assert_eq!(FeatureConfig::NoFeatures.cargo_args(), vec!["--no-default-features"]);
    assert_eq!(
        FeatureConfig::Alloc.cargo_args(),
        vec!["--no-default-features", "--features=alloc"]
    );
    assert_eq!(FeatureConfig::All.cargo_args(), vec!["--all-features"]);
}

#[test]
fn filename_is_display_name_with_extension() {
    for config in catalog() {
        assert_eq!(config.filename(), format!("{}.txt", config.display_name()));
    }
}

#[test]
fn rustdoc_args_wrap_the_configuration_flags() {
    assert_eq!(
        rustdoc_args(FeatureConfig::Alloc),
        vec![
            "rustdoc",
            "--no-default-features",
            "--features=alloc",
            "--",
            "-Z",
            "unstable-options",
            "--output-format",
            "json"
        ]
    );
    assert_eq!(
        rustdoc_args(FeatureConfig::All),
        vec!["rustdoc", "--all-features", "--", "-Z", "unstable-options", "--output-format", "json"]
    );
    assert_eq!(rustdoc_flags(), "-A rustdoc::broken_intra_doc_links");
}

#[test]
fn doc_file_name_replaces_hyphens() {
    assert_eq!(doc_file_name("bitcoin-units"), "bitcoin_units.json");
    assert_eq!(doc_file_name("a-b-c"), "a_b_c.json");
    assert_eq!(doc_file_name("plain"), "plain.json");
    assert_eq!(doc_file_name(""), ".json");
    assert_eq!(doc_file_name("-"), "_.json");
}

#[test]
fn drift_is_any_visible_status_line() {
    assert!(!has_drift(""));
    assert!(!has_drift("  \n\t"));
    assert!(has_drift(" M api/units/all-features.txt\n"));
    assert!(has_drift("?? api/"));
    assert_eq!(api_dir(), "api");
    assert!(drift_message().starts_with("You have introduced changes to the public API"));
}

#[test]
fn baseline_selects_the_mode() {
    assert_eq!(CheckMode::select(None), CheckMode::LocalDrift);
    assert_eq!(
        CheckMode::select(Some("v1.0.0".to_string())),
        CheckMode::Semver("v1.0.0".to_string())
    );
    assert!(CheckMode::LocalDrift.checks_additivity());
    assert!(CheckMode::LocalDrift.writes_snapshots());
    assert!(!CheckMode::Semver("main".to_string()).checks_additivity());
    assert!(!CheckMode::Semver("main".to_string()).writes_snapshots());
}
