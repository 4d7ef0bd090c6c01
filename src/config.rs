//! The `[expand]` section of Cargo's configuration.
use vstd::prelude::*;

verus! {

/// Settings under `[expand]`.
#[derive(Debug)]
pub struct Config {
    pub theme: Option<String>,
    pub color: Option<String>,
    pub pager: bool,
    /// Format with rustfmt instead of the built-in printer: slower and less
    /// reliable on macro-generated code, but closer to hand-written style
    /// when it works.
    pub rustfmt: bool,
}

impl Default for Config {
    fn default() -> (r: Config)
        ensures
            r.theme is None,
            r.color is None,
            !r.pager,
            !r.rustfmt,
    {
        Config { theme: None, color: None, pager: false, rustfmt: false }
    }
}

/// The settings that were read, or the defaults when there were none.
pub fn deserialize(found: Option<Config>) -> (r: Config)
    ensures
        found matches Some(c) ==> r == c,
        found is None ==> r.theme is None && r.color is None && !r.pager && !r.rustfmt,
{
    match found {
        Some(c) => c,
        None => Config { theme: None, color: None, pager: false, rustfmt: false },
    }
}

} // verus!
