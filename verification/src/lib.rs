//! Maintainer tooling for Rust workspaces: checks that the public API of a
//! package only grows across feature configurations and across revisions,
//! together with the rules that drive the surrounding build, test and lint
//! tasks.
//!
//! Everything in this crate is pure: callers run the external tools and hand
//! their results in as plain values.

pub mod additive;
pub mod api;
pub mod catalog;
pub mod cli;
pub mod compat;
pub mod config;
pub mod diff;
pub mod extract;
pub mod integration;
pub mod lint;
pub mod lock;
pub mod metadata;
pub mod orchestrator;
pub mod order;
pub mod packages;
pub mod prerelease;
pub mod releases;
pub mod signature;
pub mod testing;
pub mod text;
pub mod toolchain;
pub mod version;
