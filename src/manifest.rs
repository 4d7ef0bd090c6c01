//! What the crate's manifest says of its package.
use vstd::prelude::*;

verus! {

/// The parts of `Cargo.toml` that matter here.
#[derive(Debug)]
pub struct CargoManifest {
    pub package: Option<CargoPackage>,
}

/// The `[package]` table.
#[derive(Debug)]
pub struct CargoPackage {
    /// `default-run`: the binary that `cargo run` runs.
    pub default_run: Option<String>,
}

} // verus!
