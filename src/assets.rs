//! Where the highlighting assets are cached.
use vstd::prelude::*;
use crate::etcetera::{home_dir, HomeDirError};
use crate::path::{join_path, joined};

pub mod windows;
pub mod xdg;

verus! {

/// The cache directory of the highlighting assets: `bat_cache_path` when it
/// is set; else `bat` under the platform's cache directory, found from the
/// home directory and `cache_var` (the local application data folder on
/// Windows, `XDG_CACHE_HOME` elsewhere).
pub fn cache_dir(bat_cache_path: Option<String>, on_windows: bool, cache_var: &Option<String>) -> (r:
    Result<String, HomeDirError>)
    ensures
        bat_cache_path matches Some(p) ==> r == Ok::<String, HomeDirError>(p),
        bat_cache_path is None ==> (r matches Ok(d) ==> exists|h: Seq<char>|
            d@ == joined(
                if on_windows {
                    windows::cache_spec(h, crate::path::opt_model(*cache_var))
                } else {
                    xdg::cache_spec(h, crate::path::opt_model(*cache_var))
                },
                "bat"@,
            )),
{
    match bat_cache_path {
        Some(p) => {
            return Ok(p);
        },
        None => {},
    }
    let home = home_dir()?;
    let base = if on_windows {
        windows::cache_dir(home.as_str(), cache_var)
    } else {
        xdg::cache_dir(home.as_str(), cache_var)
    };
    let r = join_path(base.as_str(), "bat");
    assert(r@ == joined(
        if on_windows {
            windows::cache_spec(home@, crate::path::opt_model(*cache_var))
        } else {
            xdg::cache_spec(home@, crate::path::opt_model(*cache_var))
        },
        "bat"@,
    ));
    Ok(r)
}

} // verus!
