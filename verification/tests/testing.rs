use rbmt::testing::{
    combine_features, debug_assertions_flag, feature_combinations, feature_matrix, parse_example,
    ExampleFeatures, ExampleRun, FeatureFlag, InvalidExample, TestConfig, TestRun,
};

fn names(list: &[&str]) -> Vec<String> {
    list.iter().map(|name| name.to_string()).collect()
}

fn features(text: &str) -> TestRun {
    TestRun::Features(text.to_string())
}

#[test]
fn feature_flags_have_names() {
    assert_eq!(FeatureFlag::Std.as_str(), "std");
    assert_eq!(FeatureFlag::NoStd.as_str(), "no-std");
}

#[test]
fn debug_assertions_are_switched_by_flag() {
    assert_eq!(debug_assertions_flag(true), "-C debug-assertions=off");
    assert_eq!(debug_assertions_flag(false), "-C debug-assertions=on");
}

#[test]
fn example_with_default_features() {
    let run = parse_example("bip32").unwrap();
    assert_eq!(run, ExampleRun { name: "bip32".to_string(), features: ExampleFeatures::Default });
    assert_eq!(run.cargo_args(), vec!["--example", "bip32"]);
}

#[test]
fn example_without_default_features() {
    let run = parse_example("bip32:-").unwrap();
    assert_eq!(run, ExampleRun { name: "bip32".to_string(), features: ExampleFeatures::NoDefault });
    assert_eq!(run.cargo_args(), vec!["--no-default-features", "--example", "bip32"]);
}

#[test]
fn example_with_named_features() {
    let run = parse_example("bip32:serde rand").unwrap();
    assert_eq!(
        run,
        ExampleRun {
            name: "bip32".to_string(),
            features: ExampleFeatures::Only("serde rand".to_string()),
        }
    );
    assert_eq!(run.cargo_args(), vec!["--example", "bip32", "--features=serde rand"]);
    assert_eq!(
        parse_example("x:").unwrap().features,
        ExampleFeatures::Only(String::new())
    );
    assert_eq!(parse_example(":-").unwrap().name, "");
    assert_eq!(parse_example("").unwrap().name, "");
}

#[test]
fn example_with_two_colons_is_invalid() {
    let error = parse_example("a:b:c").unwrap_err();
    assert_eq!(error, InvalidExample("a:b:c".to_string()));
    assert_eq!(
        error.message(),
        "Invalid example format: a:b:c, expected 'name', 'name:-', or 'name:features'"
    );
    assert!(parse_example("::").is_err());
}

#[test]
fn features_are_combined_with_blanks() {
    assert_eq!(combine_features(Some(FeatureFlag::Std), &names(&["serde", "rand"])), "std serde rand");
    assert_eq!(combine_features(None, &names(&["serde", "rand"])), "serde rand");
    assert_eq!(combine_features(Some(FeatureFlag::NoStd), &names(&[])), "no-std");
    assert_eq!(combine_features(None, &names(&[])), "");
}

#[test]
fn combinations_of_one_feature() {
    assert_eq!(feature_combinations(Some(FeatureFlag::Std), &names(&["serde"])), vec!["std serde"]);
    assert_eq!(feature_combinations(None, &names(&[])), vec![""]);
}

#[test]
fn combinations_of_two_features() {
    assert_eq!(
        feature_combinations(Some(FeatureFlag::Std), &names(&["serde", "rand"])),
        vec!["std serde rand", "std serde", "std serde rand", "std rand"]
    );
}

#[test]
fn combinations_of_three_features() {
    assert_eq!(
        feature_combinations(None, &names(&["a", "b", "c"])),
        vec!["a b c", "a", "a b", "a c", "b", "b c", "c"]
    );
}

#[test]
fn default_matrix() {
    let config = TestConfig::default();
    assert_eq!(feature_matrix(&config), vec![TestRun::NoDefaultFeatures, TestRun::AllFeatures]);
    assert_eq!(TestRun::NoDefaultFeatures.cargo_args(), vec!["--no-default-features"]);
    assert_eq!(TestRun::AllFeatures.cargo_args(), vec!["--all-features"]);
    assert_eq!(
        features("std serde").cargo_args(),
        vec!["--no-default-features", "--features=std serde"]
    );
}

#[test]
fn exact_features_replace_the_matrix() {
    let config = TestConfig {
        exact_features: vec![names(&["serde", "rand"]), names(&["rand"]), names(&[])],
        features_with_std: names(&["ignored"]),
        ..TestConfig::default()
    };
    assert_eq!(feature_matrix(&config), vec![features("serde rand"), features("rand"), features("")]);
}

#[test]
fn matrix_with_std_and_without() {
    let config = TestConfig {
        features_with_std: names(&["serde", "rand"]),
        features_without_std: names(&["alloc"]),
        ..TestConfig::default()
    };
    assert_eq!(
        feature_matrix(&config),
        vec![
            TestRun::NoDefaultFeatures,
            TestRun::AllFeatures,
            features("std serde rand"),
            features("std serde"),
            features("std serde rand"),
            features("std rand"),
            features("alloc"),
        ]
    );
}

#[test]
fn matrix_with_no_std() {
    let config = TestConfig {
        features_with_no_std: names(&["serde"]),
        ..TestConfig::default()
    };
    assert_eq!(
        feature_matrix(&config),
        vec![features("no-std"), features("no-std serde"), TestRun::AllFeatures]
    );
}
