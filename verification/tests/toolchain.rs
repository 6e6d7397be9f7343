use rbmt::toolchain::{check_channel, check_msrv, extract_version, Toolchain, ToolchainError};

#[test]
fn test_extract_version() {
    assert_eq!(
        extract_version("rustc 1.74.0 (79e9716c9 2023-11-13)"),
        Some("1.74.0")
    );
    assert_eq!(
        extract_version("rustc 1.75.0-nightly (12345abcd 2023-11-20)"),
        Some("1.75.0")
    );
    assert_eq!(extract_version("rustc 1.74.0"), Some("1.74.0"));
    assert_eq!(extract_version("rustc unknown version"), None);
    assert_eq!(extract_version("no version here"), None);
}

#[test]
fn version_is_the_stem_of_the_first_matching_word() {
    assert_eq!(extract_version("1.2.3"), Some("1.2.3"));
    assert_eq!(extract_version("  \t1.2.3\n"), Some("1.2.3"));
    assert_eq!(extract_version("a 1.2 1.2.3.4 10.20.30-beta.1 9.9.9"), Some("10.20.30"));
    assert_eq!(extract_version("1.2.3-"), Some("1.2.3"));
    assert_eq!(extract_version("-1.2.3"), None);
    assert_eq!(extract_version("v1.2.3"), None);
    assert_eq!(extract_version("1.2.x"), None);
    assert_eq!(extract_version("1..3"), Some("1..3"));
    assert_eq!(extract_version(".."), Some(".."));
    assert_eq!(extract_version(""), None);
    assert_eq!(extract_version("1.2.3\u{a0}4.5.6"), Some("1.2.3"));
    assert_eq!(extract_version("1.2.٣"), None);
}

#[test]
fn nightly_task_needs_a_nightly_compiler() {
    assert_eq!(check_channel(Toolchain::Nightly, "rustc 1.75.0-nightly (12345abcd 2023-11-20)"), Ok(()));
    let error = check_channel(Toolchain::Nightly, "rustc 1.74.0 (79e9716c9 2023-11-13)").unwrap_err();
    assert_eq!(error, ToolchainError::NeedNightly("rustc 1.74.0 (79e9716c9 2023-11-13)".to_string()));
    assert_eq!(
        error.message(),
        "Need a nightly compiler; have rustc 1.74.0 (79e9716c9 2023-11-13)"
    );
}

#[test]
fn stable_task_refuses_nightly_and_beta() {
    assert_eq!(check_channel(Toolchain::Stable, "rustc 1.74.0 (79e9716c9 2023-11-13)"), Ok(()));
    assert_eq!(
        check_channel(Toolchain::Stable, "rustc 1.75.0-nightly"),
        Err(ToolchainError::NeedStable("rustc 1.75.0-nightly".to_string()))
    );
    let error = check_channel(Toolchain::Stable, "rustc 1.75.0-beta.3").unwrap_err();
    assert_eq!(error.message(), "Need a stable compiler; have rustc 1.75.0-beta.3");
    assert_eq!(check_channel(Toolchain::Stable, ""), Ok(()));
    assert_eq!(check_channel(Toolchain::Msrv, "rustc 1.75.0-nightly"), Ok(()));
}

#[test]
fn msrv_must_read_like_the_compiler_version() {
    assert_eq!(check_msrv("rustc 1.74.0 (79e9716c9 2023-11-13)", "1.74.0", "/repo/Cargo.toml"), Ok(()));
    let error = check_msrv("rustc 1.75.0 (abc 2023-12-28)", "1.74.0", "/repo/Cargo.toml").unwrap_err();
    assert_eq!(
        error,
        ToolchainError::MsrvMismatch {
            need: "1.74.0".to_string(),
            manifest: "/repo/Cargo.toml".to_string(),
            have: "1.75.0".to_string(),
        }
    );
    assert_eq!(
        error.message(),
        "Need Rust 1.74.0 for MSRV testing in /repo/Cargo.toml; have 1.75.0"
    );
    assert_eq!(check_msrv("rustc 1.74.0", "1.74", "m"), Err(ToolchainError::MsrvMismatch {
        need: "1.74".to_string(),
        manifest: "m".to_string(),
        have: "1.74.0".to_string(),
    }));
    let error = check_msrv("rustc unknown", "1.74.0", "/repo/Cargo.toml").unwrap_err();
    assert_eq!(error, ToolchainError::UnparsableVersion);
    assert_eq!(error.message(), "Could not parse rustc version");
}
