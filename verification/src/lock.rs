//! The lock files that the tools keep beside `Cargo.lock`.

use vstd::prelude::*;

verus! {

/// Represents the different types of managed lock files.
#[derive(Debug, Clone, Copy, PartialEq, Eq, Structural)]
pub enum LockFile {
    /// Uses minimal versions that satisfy dependency constraints.
    Minimal,
    /// Uses recent/updated versions of dependencies.
    Recent,
    /// Uses the existing Cargo.lock as-is (for binary crates).
    Existing,
}

/// The standard Cargo lockfile name.
pub open spec fn cargo_lock_text() -> Seq<char> {
    "Cargo.lock"@
}

/// The standard Cargo lockfile name.
pub fn cargo_lock() -> (name: &'static str)
    ensures
        name@ == cargo_lock_text(),
{
    "Cargo.lock"
}

/// The temporary backup file for Cargo.lock.
pub fn cargo_lock_backup() -> (name: &'static str)
    ensures
        name@ == "Cargo.lock.backup"@,
{
    "Cargo.lock.backup"
}

impl LockFile {
    /// The file name of this lock file type.
    pub open spec fn filename_text(self) -> Seq<char> {
        match self {
            LockFile::Minimal => "Cargo-minimal.lock"@,
            LockFile::Recent => "Cargo-recent.lock"@,
            LockFile::Existing => cargo_lock_text(),
        }
    }

    /// Get the filename for this lock file type.
    pub fn filename(self) -> (name: &'static str)
        ensures
            name@ == self.filename_text(),
    {
        match self {
            LockFile::Minimal => "Cargo-minimal.lock",
            LockFile::Recent => "Cargo-recent.lock",
            LockFile::Existing => cargo_lock(),
        }
    }

    /// The file to copy over `Cargo.lock` in order to restore this lock file:
    /// the file of a derived lock file, and nothing for the existing
    /// `Cargo.lock`, which is in place already.
    pub fn restore_source(self) -> (source: Option<&'static str>)
        ensures
            self == LockFile::Existing ==> source is None,
            self != LockFile::Existing ==> (source matches Some(name) && name@
                == self.filename_text()),
    {
        match self {
            LockFile::Minimal | LockFile::Recent => Some(self.filename()),
            LockFile::Existing => None,
        }
    }
}

impl Default for LockFile {
    /// The lock file used when none is named: the recent one.
    fn default() -> (lock_file: LockFile)
        ensures
            lock_file == LockFile::Recent,
    {
        LockFile::Recent
    }
}

} // verus!
