//! The cache directory by the Windows convention.
use vstd::prelude::*;
use crate::etcetera::base_strategy::folder_or;
use crate::path::{join_path, joined, opt_model};

verus! {

pub open spec fn cache_spec(home: Seq<char>, local_app_data: Option<Seq<char>>) -> Seq<char> {
    folder_or(local_app_data, joined(joined(home, "AppData"@), "Local"@))
}

/// The local application data folder, unless it is unknown or empty; else
/// `AppData\Local` under the home directory.
pub fn cache_dir(home_dir: &str, local_app_data: &Option<String>) -> (r: String)
    ensures
        r@ == cache_spec(home_dir@, opt_model(*local_app_data)),
{
    match local_app_data {
        Some(p) => if p.unicode_len() > 0 {
            return p.clone();
        },
        None => {},
    }
    let h = join_path(home_dir, "AppData");
    join_path(h.as_str(), "Local")
}

} // verus!
