use rbmt::packages::{package_directory, select_packages, PackageInfo, UnknownPackages};

fn package(name: &str) -> PackageInfo {
    PackageInfo { name: name.to_string(), directory: format!("/repo/{}", name) }
}

fn names(list: &[&str]) -> Vec<String> {
    list.iter().map(|name| name.to_string()).collect()
}

#[test]
fn directory_is_the_path_without_the_manifest() {
    assert_eq!(package_directory("/path/to/repo/releases/Cargo.toml"), "/path/to/repo/releases");
    assert_eq!(package_directory("/Cargo.toml"), "");
    assert_eq!(package_directory("Cargo.toml"), "Cargo.toml");
    assert_eq!(package_directory("/repo/units"), "/repo/units");
    assert_eq!(package_directory("/repo/Cargo.toml/Cargo.toml"), "/repo");
    assert_eq!(package_directory("/repo/Cargo.toml/x"), "/repo/Cargo.toml/x");
    assert_eq!(package_directory(""), "");
}

#[test]
fn nothing_requested_selects_everything() {
    let all = vec![package("bitcoin"), package("units")];
    assert_eq!(select_packages(all.clone(), &vec![]), Ok(all));
    assert_eq!(select_packages(vec![], &vec![]), Ok(vec![]));
}

#[test]
fn requested_packages_keep_the_workspace_order() {
    let all = vec![package("bitcoin"), package("hashes"), package("units")];
    assert_eq!(
        select_packages(all.clone(), &names(&["units", "bitcoin"])),
        Ok(vec![package("bitcoin"), package("units")])
    );
    assert_eq!(
        select_packages(all, &names(&["hashes", "hashes"])),
        Ok(vec![package("hashes")])
    );
}

#[test]
fn unknown_package_is_an_error() {
    let all = vec![package("bitcoin"), package("units")];
    let error = select_packages(all, &names(&["nope", "units", "neither", "nope"])).unwrap_err();
    assert_eq!(
        error,
        UnknownPackages {
            missing: names(&["nope", "neither", "nope"]),
            available: names(&["bitcoin", "units"]),
        }
    );
    assert_eq!(
        error.message(),
        "Package not found in workspace: nope, neither, nope\n\nAvailable packages:\n  - bitcoin\n  - units"
    );
}

#[test]
fn unknown_package_in_an_empty_workspace() {
    let error = select_packages(vec![], &names(&["a"])).unwrap_err();
    assert_eq!(error.message(), "Package not found in workspace: a\n\nAvailable packages:");
}
