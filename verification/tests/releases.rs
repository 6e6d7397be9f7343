use rbmt::releases::json;
use rbmt::releases::{freshness, Config, CrateNode, CrateVersion, Freshness, LatestError};
use rbmt::version::{InvalidVersion, Version, VersionParts};

fn v(text: &str) -> Version {
    Version::parse(text).unwrap()
}

fn listed(package: &str, version: &str) -> CrateVersion {
    CrateVersion { package: package.to_string(), version: v(version) }
}

fn release(package: &str, version: &str) -> CrateNode {
    CrateNode { package: package.to_string(), version: v(version), dependencies: vec![] }
}

#[test]
fn version_parts_are_read_by_semver() {
    assert_eq!(
        v("1.74.0").to_parts(),
        VersionParts { major: 1, minor: 74, patch: 0, pre: String::new(), build: String::new() }
    );
    assert_eq!(
        v("0.32.0-rc.1+build.5").to_parts(),
        VersionParts {
            major: 0,
            minor: 32,
            patch: 0,
            pre: "rc.1".to_string(),
            build: "build.5".to_string(),
        }
    );
    assert_eq!(v("1.2.3").as_str(), "1.2.3");
}

#[test]
fn invalid_versions_are_refused() {
    for text in ["", "1.0", "1.0.01", "1.0.unknown", "1.0.0-", "1.0.0+", "1.0.0-alpha_123", " 1.0.0"] {
        assert_eq!(Version::parse(text), Err(InvalidVersion(text.to_string())));
    }
    assert!(Version::parse("23456789999999999999.0.0").is_err());
}

#[test]
fn versions_are_ordered_as_numbers() {
    assert!(v("1.19.0").exceeds(&v("1.5.0")));
    assert!(!v("1.5.0").exceeds(&v("1.19.0")));
    assert!(!v("1.5.0").exceeds(&v("1.5.0")));
    assert!(v("1.0.0").exceeds(&v("1.0.0-alpha.1")));
    assert!(v("1.0.0-pre.12").exceeds(&v("1.0.0-pre.8")));
    assert!(v("1.0.0-pre8").exceeds(&v("1.0.0-pre12")));
    assert!(v("1.0.0-pre.x").exceeds(&v("1.0.0-pre.1")));
    assert_eq!(v("0.0.1").exceeds_text("0.0.0"), Some(true));
    assert_eq!(v("0.0.0").exceeds_text("0.0.0"), Some(false));
    assert_eq!(v("0.0.0").exceeds_text("zero"), None);
}

#[test]
fn same_as_compares_every_part() {
    assert!(v("1.2.3").same_as(&v("1.2.3")));
    assert!(!v("1.2.3").same_as(&v("1.2.4")));
    assert!(!v("1.2.3").same_as(&v("1.2.3-rc1")));
    assert!(!v("1.2.3+a").same_as(&v("1.2.3+b")));
    assert!(v("1.2.3").clone().same_as(&v("1.2.3")));
}

#[test]
fn latest_is_the_greatest_release() {
    let config = Config {
        latests: vec![listed("bitcoin", "0.32.2"), listed("units", "0.1.2")],
        releases: vec![
            release("bitcoin", "0.31.0"),
            release("units", "0.1.2"),
            release("bitcoin", "0.32.2"),
            release("bitcoin", "0.32.0"),
        ],
    };
    assert_eq!(config.latest("bitcoin"), Ok(v("0.32.2")));
    assert_eq!(config.latest("units"), Ok(v("0.1.2")));
}

#[test]
fn latest_needs_a_listing() {
    let config = Config { latests: vec![], releases: vec![release("bitcoin", "0.32.2")] };
    let error = config.latest("bitcoin").unwrap_err();
    assert_eq!(error, LatestError::NotListed("bitcoin".to_string()));
    assert_eq!(
        error.message(),
        "package bitcoin is not listed in latest section of config file"
    );
}

#[test]
fn latest_needs_a_release() {
    let config = Config {
        latests: vec![listed("bitcoin", "0.32.2")],
        releases: vec![release("units", "0.1.0"), release("bitcoin", "0.0.0")],
    };
    let error = config.latest("bitcoin").unwrap_err();
    assert_eq!(error, LatestError::NoRelease("bitcoin".to_string()));
    assert_eq!(error.message(), "we don't have a release in the config file for bitcoin");
}

#[test]
fn latest_must_match_the_listing() {
    let config = Config {
        latests: vec![listed("bitcoin", "0.32.0")],
        releases: vec![release("bitcoin", "0.32.0"), release("bitcoin", "0.32.2")],
    };
    let error = config.latest("bitcoin").unwrap_err();
    assert_eq!(error, LatestError::Mismatch("bitcoin".to_string()));
    assert_eq!(
        error.message(),
        "the latest version in the releases section for bitcoin does not match the verison in the latest section"
    );
}

#[test]
fn last_listing_of_a_package_counts() {
    let config = Config {
        latests: vec![listed("bitcoin", "0.31.0"), listed("bitcoin", "0.32.2")],
        releases: vec![release("bitcoin", "0.32.2")],
    };
    assert_eq!(config.latest("bitcoin"), Ok(v("0.32.2")));
}

#[test]
fn release_file_is_read_in_order() {
    let file = json::Config {
        org: "rust-bitcoin".to_string(),
        latests: vec![json::CrateVersion {
            package: "bitcoin".to_string(),
            version: "0.32.2".to_string(),
        }],
        releases: vec![json::CrateNode {
            package: "bitcoin".to_string(),
            version: "0.32.2".to_string(),
            dependencies: vec![json::CrateVersion {
                package: "units".to_string(),
                version: "0.1.2".to_string(),
            }],
        }],
    };
    let config = Config::from_json(&file).unwrap();
    assert_eq!(config.latests, vec![listed("bitcoin", "0.32.2")]);
    assert_eq!(
        config.releases,
        vec![CrateNode {
            package: "bitcoin".to_string(),
            version: v("0.32.2"),
            dependencies: vec![listed("units", "0.1.2")],
        }]
    );
    assert_eq!(config.releases[0].label(), "bitcoin 0.32.2");
}

#[test]
fn first_invalid_version_is_reported() {
    let entry = |package: &str, version: &str| json::CrateVersion {
        package: package.to_string(),
        version: version.to_string(),
    };
    let file = json::Config {
        org: "org".to_string(),
        latests: vec![entry("a", "1.0.0")],
        releases: vec![
            json::CrateNode {
                package: "a".to_string(),
                version: "bad-own".to_string(),
                dependencies: vec![entry("b", "1.0.0"), entry("c", "bad-dep"), entry("d", "bad-2")],
            },
            json::CrateNode {
                package: "e".to_string(),
                version: "bad-later".to_string(),
                dependencies: vec![],
            },
        ],
    };
    assert_eq!(Config::from_json(&file), Err(InvalidVersion("bad-dep".to_string())));
    let mut in_latests = file.clone();
    in_latests.latests.push(entry("z", "bad-latest"));
    assert_eq!(Config::from_json(&in_latests), Err(InvalidVersion("bad-latest".to_string())));
    let mut own = file.clone();
    own.releases[0].dependencies.truncate(1);
    assert_eq!(Config::from_json(&own), Err(InvalidVersion("bad-own".to_string())));
}

#[test]
fn freshness_goes_by_major_minor_patch() {
    assert_eq!(freshness(&v("0.32.2"), &v("0.32.2")), Freshness::Latest);
    assert_eq!(freshness(&v("0.32.0"), &v("0.32.2")), Freshness::PatchBehind);
    assert_eq!(freshness(&v("0.31.9"), &v("0.32.2")), Freshness::Outdated);
    assert_eq!(freshness(&v("1.32.2"), &v("0.32.2")), Freshness::Outdated);
    assert_eq!(freshness(&v("0.32.2-rc1"), &v("0.32.2")), Freshness::Latest);
}

#[test]
fn releases_are_listed_in_a_column() {
    assert_eq!(listed("bitcoin", "0.32.2").list_line(), "    - bitcoin              0.32.2");
    assert_eq!(
        listed("a-package-name-of-more-than-twenty", "1.0.0").list_line(),
        "    - a-package-name-of-more-than-twenty 1.0.0"
    );
    assert_eq!(rbmt::releases::pad("abc", 5), "abc  ");
    assert_eq!(rbmt::releases::pad("abcde", 5), "abcde");
    assert_eq!(rbmt::releases::pad("", 0), "");
    assert_eq!(rbmt::releases::pad("ßß", 3), "ßß ");
}

#[test]
fn listing_is_checked_against_the_registry() {
    let entry = listed("bitcoin", "0.32.2");
    assert!(entry.is_current(&v("0.32.2")));
    assert!(!entry.is_current(&v("0.32.3")));
    assert_eq!(entry.check_line(&v("0.32.2")), "bitcoin 0.32.2 \x1b[92m\u{2713}\x1b[0m");
    assert_eq!(
        entry.check_line(&v("0.32.3")),
        "Latest crates.io release bitcoin 0.32.3 does not match the config file latest version 0.32.2"
    );
    assert_eq!(
        rbmt::releases::all_current_message(),
        "\nAll releases on crates.io match those in the config file"
    );
}

#[test]
fn dependency_lines() {
    use_dependency_lines();
}

fn use_dependency_lines() {
    let latest = v("0.32.2");
    assert_eq!(
        rbmt::releases::dependency_line("bitcoin", None, &latest),
        "    - bitcoin              0.32.2"
    );
    assert_eq!(
        rbmt::releases::dependency_line("bitcoin", Some(&v("0.32.2")), &latest),
        format!("    - {:20} {}      {}", "bitcoin", rbmt::releases::tick(), "0.32.2")
    );
    assert_eq!(
        rbmt::releases::dependency_line("bitcoin", Some(&v("0.32.0")), &latest),
        format!("    - {:20} {}      {} latest: {}", "bitcoin", rbmt::releases::tick(), "0.32.0", "0.32.2")
    );
    assert_eq!(
        rbmt::releases::dependency_line("bitcoin", Some(&v("0.31.0")), &latest),
        format!("    - {:20} {}      {} latest: {}", "bitcoin", rbmt::releases::cross(), "0.31.0", "0.32.2")
    );
    assert_eq!(rbmt::releases::tick(), "\x1b[92m\u{2713}\x1b[0m");
    assert_eq!(rbmt::releases::cross(), "\x1b[91m\u{2717}\x1b[0m");
}

#[test]
fn dependency_values_name_package_and_version() {
    use_dependency_values();
}

fn use_dependency_values() {
    let text = rbmt::releases::DependencyValue::Text("0.32".to_string());
    let table = rbmt::releases::DependencyValue::Table {
        package: Some("bitcoin_hashes".to_string()),
        version: Some("0.14".to_string()),
    };
    let bare = rbmt::releases::DependencyValue::Table { package: None, version: None };
    assert_eq!(rbmt::releases::dependency_package("hashes", &text), "hashes");
    assert_eq!(rbmt::releases::dependency_package("hashes", &table), "bitcoin_hashes");
    assert_eq!(rbmt::releases::dependency_package("hashes", &bare), "hashes");
    assert_eq!(
        rbmt::releases::dependency_package("hashes", &rbmt::releases::DependencyValue::Other),
        "hashes"
    );
    assert_eq!(rbmt::releases::dependency_version(&text), Some("0.32"));
    assert_eq!(rbmt::releases::dependency_version(&table), Some("0.14"));
    assert_eq!(rbmt::releases::dependency_version(&bare), None);
    assert_eq!(
        rbmt::releases::dependency_version(&rbmt::releases::DependencyValue::Other),
        None
    );
}
