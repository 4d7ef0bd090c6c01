//! Where an application keeps its configuration, data and cache, by the
//! conventions of each platform.
use vstd::prelude::*;

pub mod app_strategy;
pub mod base_strategy;

verus! {

/// The home directory could not be located.
#[derive(Debug, PartialEq, Eq, Structural)]
pub struct HomeDirError;

impl HomeDirError {
    /// The message that describes the error.
    pub fn to_string(&self) -> (r: String)
        ensures
            r@ == "could not locate home directory"@,
    {
        "could not locate home directory".to_owned()
    }
}

/// Relies on `home::home_dir`: the current user's home directory, when the
/// environment or the system names one. Nothing is promised of its value.
#[verifier::external_body]
fn find_home() -> (r: Option<String>) {
    match home::home_dir() {
        Some(p) => Some(p.to_string_lossy().into_owned()),
        None => None,
    }
}

/// The current user's home directory.
pub fn home_dir() -> (r: Result<String, HomeDirError>) {
    match find_home() {
        Some(h) => Ok(h),
        None => Err(HomeDirError),
    }
}

} // verus!
