//! The cache directory by the XDG convention.
use vstd::prelude::*;
use crate::etcetera::base_strategy::env_or_default;
use crate::path::{is_absolute, join_path, opt_model};

verus! {

pub open spec fn cache_spec(home: Seq<char>, cache_home: Option<Seq<char>>) -> Seq<char> {
    env_or_default(home, cache_home, ".cache/"@)
}

/// `XDG_CACHE_HOME` when it is an absolute path; else `.cache/` under the
/// home directory.
pub fn cache_dir(home_dir: &str, cache_home: &Option<String>) -> (r: String)
    ensures
        r@ == cache_spec(home_dir@, opt_model(*cache_home)),
{
    match cache_home {
        Some(p) => if is_absolute(p.as_str()) {
            return p.clone();
        },
        None => {},
    }
    join_path(home_dir, ".cache/")
}

} // verus!
