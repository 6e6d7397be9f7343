use rbmt::api::{ApiItem, PackageApiSet, PublicApi};
use rbmt::catalog::FeatureConfig;
use rbmt::packages::PackageInfo;
use rbmt::compat::{
    compare, compare_all, find_package, MissingPackageWarning, PackageApis,
    PackageOutcome, Revision,
};
use rbmt::diff::ChangedItem;

fn api(items: &[(&str, &str)]) -> PublicApi {
    PublicApi::from_items(items.iter().map(|(name, sig)| ApiItem::new(name, sig)).collect())
}

fn uniform(items: &[(&str, &str)]) -> PackageApiSet {
    PackageApiSet::new(api(items), api(items), api(items))
}

fn package(name: &str) -> PackageInfo {
    PackageInfo { name: name.to_string(), directory: format!("/repo/{}", name) }
}

fn entry(name: &str, apis: PackageApiSet) -> PackageApis {
    PackageApis { package: name.to_string(), apis }
}

#[test]
fn scenario_semver_pass() {
    let baseline = uniform(&[("foo", "fn foo()")]);
    let current = uniform(&[("foo", "fn foo()"), ("bar", "fn bar()")]);
    let report = compare(&package("units"), &current, &baseline);
    assert!(!report.is_breaking());
    assert!(report.breaking_configs().is_empty());
    assert_eq!(report.package, "units");
    assert_eq!(report.outcomes.len(), 3);
    assert_eq!(report.outcomes[0].config, FeatureConfig::NoFeatures);
    assert_eq!(report.outcomes[0].diff.added, vec![ApiItem::new("bar", "fn bar()")]);
    assert!(report.outcomes[0].diff.removed.is_empty());
    assert!(report.outcomes[0].diff.changed.is_empty());
}

#[test]
fn scenario_semver_fail() {
    let same = api(&[("bar", "fn bar()")]);
    let baseline = PackageApiSet::new(api(&[("foo", "fn foo() -> i32")]), same.clone(), same.clone());
    let current = PackageApiSet::new(api(&[("foo", "fn foo() -> u32")]), same.clone(), same);
    let report = compare(&package("units"), &current, &baseline);
    assert!(report.is_breaking());
    assert_eq!(report.breaking_configs(), vec![FeatureConfig::NoFeatures]);
    let outcome = &report.outcomes[0];
    assert_eq!(outcome.config, FeatureConfig::NoFeatures);
    assert!(outcome.is_breaking());
    assert_eq!(
        outcome.diff.changed,
        vec![ChangedItem {
            before: ApiItem::new("foo", "fn foo() -> i32"),
            after: ApiItem::new("foo", "fn foo() -> u32"),
        }]
    );
    assert!(outcome.diff.removed.is_empty());
    assert!(outcome.diff.added.is_empty());
    assert!(!report.outcomes[1].is_breaking());
    assert!(!report.outcomes[2].is_breaking());
}

#[test]
fn outcomes_follow_the_catalog() {
    let baseline = PackageApiSet::new(
        api(&[("a", "fn a()")]),
        api(&[("a", "fn a()"), ("b", "fn b()")]),
        api(&[("a", "fn a()"), ("b", "fn b()"), ("c", "fn c()")]),
    );
    let current = PackageApiSet::new(
        api(&[("a", "fn a()")]),
        api(&[("a", "fn a()")]),
        api(&[("a", "fn a()"), ("b", "fn b()"), ("c", "fn c(x: u8)")]),
    );
    let report = compare(&package("p"), &current, &baseline);
    let configs: Vec<FeatureConfig> = report.outcomes.iter().map(|o| o.config).collect();
    assert_eq!(configs, vec![FeatureConfig::NoFeatures, FeatureConfig::Alloc, FeatureConfig::All]);
    assert_eq!(report.breaking_configs(), vec![FeatureConfig::Alloc, FeatureConfig::All]);
    assert_eq!(report.outcomes[1].diff.removed, vec![ApiItem::new("b", "fn b()")]);
    assert_eq!(report.outcomes[2].diff.changed.len(), 1);
    assert!(report.is_breaking());
}

#[test]
fn scenario_missing_package() {
    let packages = vec![package("fresh"), package("units")];
    let current = vec![
        entry("fresh", uniform(&[("f", "fn f()")])),
        entry("units", uniform(&[("foo", "fn foo()"), ("bar", "fn bar()")])),
    ];
    let baseline = vec![entry("units", uniform(&[("foo", "fn foo()")]))];
    let report = compare_all(&packages, &current, &baseline);
    assert_eq!(report.outcomes.len(), 2);
    assert_eq!(
        report.outcomes[0],
        PackageOutcome::Skipped(MissingPackageWarning {
            package: "fresh".to_string(),
            missing_from: Revision::Baseline,
        })
    );
    assert!(matches!(report.outcomes[1], PackageOutcome::Compared(_)));
    assert!(!report.is_breaking());
    assert_eq!(
        report.warnings(),
        vec!["Warning: Package 'fresh' not found in baseline - skipping comparison"]
    );
}

#[test]
fn package_gone_from_current_is_a_warning() {
    let packages = vec![package("old")];
    let current: Vec<PackageApis> = vec![];
    let baseline = vec![entry("old", uniform(&[("foo", "fn foo()")]))];
    let report = compare_all(&packages, &current, &baseline);
    assert_eq!(
        report.outcomes,
        vec![PackageOutcome::Skipped(MissingPackageWarning {
            package: "old".to_string(),
            missing_from: Revision::Current,
        })]
    );
    assert!(!report.is_breaking());
    assert_eq!(
        report.warnings(),
        vec!["Warning: Package 'old' exists in baseline but not in current - possible removal"]
    );
}

#[test]
fn package_missing_on_both_sides_is_missing_from_baseline() {
    let report = compare_all(&vec![package("ghost")], &vec![], &vec![]);
    assert_eq!(
        report.outcomes,
        vec![PackageOutcome::Skipped(MissingPackageWarning {
            package: "ghost".to_string(),
            missing_from: Revision::Baseline,
        })]
    );
}

#[test]
fn every_breaking_package_is_reported() {
    let packages = vec![package("a"), package("b"), package("c")];
    let current = vec![
        entry("a", uniform(&[])),
        entry("b", uniform(&[("x", "fn x()")])),
        entry("c", uniform(&[("y", "fn y() -> u8")])),
    ];
    let baseline = vec![
        entry("a", uniform(&[("gone", "fn gone()")])),
        entry("b", uniform(&[("x", "fn x()")])),
        entry("c", uniform(&[("y", "fn y()")])),
    ];
    let report = compare_all(&packages, &current, &baseline);
    assert!(report.is_breaking());
    let breaking: Vec<bool> = report
        .outcomes
        .iter()
        .map(|outcome| match outcome {
            PackageOutcome::Compared(r) => r.is_breaking(),
            PackageOutcome::Skipped(_) => false,
        })
        .collect();
    assert_eq!(breaking, vec![true, false, true]);
    assert!(report.warnings().is_empty());
}

#[test]
fn no_packages_no_findings() {
    let report = compare_all(&vec![], &vec![], &vec![]);
    assert!(report.outcomes.is_empty());
    assert!(!report.is_breaking());
    assert!(report.warnings().is_empty());
}

#[test]
fn first_entry_of_a_package_is_used() {
    let table = vec![
        entry("a", uniform(&[])),
        entry("b", uniform(&[("one", "fn one()")])),
        entry("b", uniform(&[("two", "fn two()")])),
    ];
    assert_eq!(find_package(&table, &"b".to_string()), Some(1));
    assert_eq!(find_package(&table, &"a".to_string()), Some(0));
    assert_eq!(find_package(&table, &"c".to_string()), None);
}

#[test]
fn findings_name_package_configuration_and_signatures() {
    let baseline = PackageApiSet::new(
        api(&[("foo", "fn foo() -> i32"), ("gone", "fn gone()")]),
        api(&[("same", "fn same()")]),
        api(&[("lost", "struct Lost")]),
    );
    let current = PackageApiSet::new(
        api(&[("foo", "fn foo() -> u32")]),
        api(&[("same", "fn same()"), ("more", "fn more()")]),
        api(&[]),
    );
    let report = compare(&package("units"), &current, &baseline);
    assert_eq!(
        report.report_lines(),
        vec![
            "API changes detected in units (no-features)",
            "  Items removed:",
            "    - fn gone()",
            "  Items changed:",
            "    - old: fn foo() -> i32",
            "      new: fn foo() -> u32",
            "API changes detected in units (all-features)",
            "  Items removed:",
            "    - struct Lost",
        ]
    );
    assert_eq!(
        rbmt::compat::breaking_message(),
        "Semver compatibility check failed: breaking changes detected"
    );
    let quiet = compare(&package("units"), &baseline, &baseline);
    assert!(quiet.report_lines().is_empty());
}

#[test]
fn breaking_changes_are_enumerated_across_packages() {
    let packages = vec![package("a"), package("skipped"), package("b"), package("c")];
    let current = vec![
        entry("a", uniform(&[])),
        entry("skipped", uniform(&[])),
        entry("b", uniform(&[("x", "fn x()")])),
        entry(
            "c",
            PackageApiSet::new(
                api(&[("y", "fn y()")]),
                api(&[("y", "fn y() -> u8")]),
                api(&[("y", "fn y()")]),
            ),
        ),
    ];
    let baseline = vec![
        entry("a", uniform(&[("gone", "fn gone()")])),
        entry("b", uniform(&[("x", "fn x()")])),
        entry("c", uniform(&[("y", "fn y()")])),
    ];
    let report = compare_all(&packages, &current, &baseline);
    let errors: Vec<(String, FeatureConfig)> = report
        .breaking_changes()
        .into_iter()
        .map(|error| (error.package, error.config))
        .collect();
    assert_eq!(
        errors,
        vec![
            ("a".to_string(), FeatureConfig::NoFeatures),
            ("a".to_string(), FeatureConfig::Alloc),
            ("a".to_string(), FeatureConfig::All),
            ("c".to_string(), FeatureConfig::Alloc),
        ]
    );
    assert!(compare_all(&vec![], &vec![], &vec![]).breaking_changes().is_empty());
}
