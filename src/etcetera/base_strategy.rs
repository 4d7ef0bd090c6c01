//! Base strategies: the directories every application shares.
use vstd::prelude::*;
use crate::etcetera::{home_dir, HomeDirError};
use crate::path::{absolute, join_path, joined, opt_model};

verus! {

/// The base directories of a platform.
pub trait BaseStrategy {
    spec fn home_spec(&self) -> Seq<char>;

    spec fn config_spec(&self) -> Seq<char>;

    spec fn data_spec(&self) -> Seq<char>;

    spec fn cache_spec(&self) -> Seq<char>;

    spec fn state_spec(&self) -> Option<Seq<char>>;

    spec fn runtime_spec(&self) -> Option<Seq<char>>;

    fn home_dir(&self) -> (r: &str)
        ensures
            r@ == self.home_spec(),
    ;

    fn config_dir(&self) -> (r: String)
        ensures
            r@ == self.config_spec(),
    ;

    fn data_dir(&self) -> (r: String)
        ensures
            r@ == self.data_spec(),
    ;

    fn cache_dir(&self) -> (r: String)
        ensures
            r@ == self.cache_spec(),
    ;

    fn state_dir(&self) -> (r: Option<String>)
        ensures
            opt_model(r) == self.state_spec(),
    ;

    fn runtime_dir(&self) -> (r: Option<String>)
        ensures
            opt_model(r) == self.runtime_spec(),
    ;
}

/// The XDG variables as the environment held them.
#[derive(Debug, Default)]
pub struct XdgVars {
    pub config_home: Option<String>,
    pub data_home: Option<String>,
    pub cache_home: Option<String>,
    pub state_home: Option<String>,
    pub runtime_dir: Option<String>,
}

/// The XDG base directory convention.
#[derive(Debug)]
pub struct Xdg {
    pub home_dir: String,
    pub vars: XdgVars,
}

/// A variable's value when it is an absolute path.
pub open spec fn env_or_none(v: Option<Seq<char>>) -> Option<Seq<char>> {
    match v {
        Some(p) => if absolute(p) {
            Some(p)
        } else {
            None
        },
        None => None,
    }
}

/// A variable's value when it is an absolute path, else `default` under
/// the home directory.
pub open spec fn env_or_default(home: Seq<char>, v: Option<Seq<char>>, default: Seq<char>) -> Seq<
    char,
> {
    match env_or_none(v) {
        Some(p) => p,
        None => joined(home, default),
    }
}

impl Xdg {
    pub fn new(vars: XdgVars) -> (r: Result<Xdg, HomeDirError>)
        ensures
            r matches Ok(x) ==> x.vars == vars,
    {
        let home_dir = home_dir()?;
        Ok(Xdg { home_dir, vars })
    }

    fn env_var_or_none(value: &Option<String>) -> (r: Option<String>)
        ensures
            opt_model(r) == env_or_none(opt_model(*value)),
    {
        match value {
            Some(p) => if crate::path::is_absolute(p.as_str()) {
                Some(p.clone())
            } else {
                None
            },
            None => None,
        }
    }

    pub fn env_var_or_default(&self, value: &Option<String>, default: &str) -> (r: String)
        ensures
            r@ == env_or_default(self.home_dir@, opt_model(*value), default@),
    {
        match Self::env_var_or_none(value) {
            Some(p) => p,
            None => join_path(self.home_dir.as_str(), default),
        }
    }
}

impl BaseStrategy for Xdg {
    open spec fn home_spec(&self) -> Seq<char> {
        self.home_dir@
    }

    open spec fn config_spec(&self) -> Seq<char> {
        env_or_default(self.home_dir@, opt_model(self.vars.config_home), ".config/"@)
    }

    open spec fn data_spec(&self) -> Seq<char> {
        env_or_default(self.home_dir@, opt_model(self.vars.data_home), ".local/share/"@)
    }

    open spec fn cache_spec(&self) -> Seq<char> {
        env_or_default(self.home_dir@, opt_model(self.vars.cache_home), ".cache/"@)
    }

    open spec fn state_spec(&self) -> Option<Seq<char>> {
        Some(env_or_default(self.home_dir@, opt_model(self.vars.state_home), ".local/state/"@))
    }

    open spec fn runtime_spec(&self) -> Option<Seq<char>> {
        env_or_none(opt_model(self.vars.runtime_dir))
    }

    fn home_dir(&self) -> (r: &str) {
        self.home_dir.as_str()
    }

    fn config_dir(&self) -> (r: String) {
        self.env_var_or_default(&self.vars.config_home, ".config/")
    }

    fn data_dir(&self) -> (r: String) {
        self.env_var_or_default(&self.vars.data_home, ".local/share/")
    }

    fn cache_dir(&self) -> (r: String) {
        self.env_var_or_default(&self.vars.cache_home, ".cache/")
    }

    fn state_dir(&self) -> (r: Option<String>) {
        Some(self.env_var_or_default(&self.vars.state_home, ".local/state/"))
    }

    fn runtime_dir(&self) -> (r: Option<String>) {
        Self::env_var_or_none(&self.vars.runtime_dir)
    }
}

/// The Windows known folders.
#[derive(Debug)]
pub struct Windows {
    pub home_dir: String,
    /// The roaming application data folder, when the system names one.
    pub app_data: Option<String>,
    /// The local application data folder, when the system names one.
    pub local_app_data: Option<String>,
}

/// A folder the system names, unless it named an empty one; else the
/// fallback.
pub open spec fn folder_or(v: Option<Seq<char>>, fallback: Seq<char>) -> Seq<char> {
    match v {
        Some(p) => if p.len() > 0 {
            p
        } else {
            fallback
        },
        None => fallback,
    }
}

impl Windows {
    pub fn new(app_data: Option<String>, local_app_data: Option<String>) -> (r: Result<
        Windows,
        HomeDirError,
    >)
        ensures
            r matches Ok(w) ==> opt_model(w.app_data) == opt_model(app_data) && opt_model(
                w.local_app_data,
            ) == opt_model(local_app_data),
    {
        let home_dir = home_dir()?;
        Ok(Windows { home_dir, app_data, local_app_data })
    }

    fn dir_inner(value: &Option<String>, home: &str, first: &str, second: &str) -> (r: String)
        ensures
            r@ == folder_or(opt_model(*value), joined(joined(home@, first@), second@)),
    {
        match value {
            Some(p) => if p.unicode_len() > 0 {
                return p.clone();
            },
            None => {},
        }
        let h = join_path(home, first);
        join_path(h.as_str(), second)
    }
}

impl BaseStrategy for Windows {
    open spec fn home_spec(&self) -> Seq<char> {
        self.home_dir@
    }

    open spec fn config_spec(&self) -> Seq<char> {
        self.data_spec()
    }

    open spec fn data_spec(&self) -> Seq<char> {
        folder_or(opt_model(self.app_data), joined(joined(self.home_dir@, "AppData"@), "Roaming"@))
    }

    open spec fn cache_spec(&self) -> Seq<char> {
        folder_or(
            opt_model(self.local_app_data),
            joined(joined(self.home_dir@, "AppData"@), "Local"@),
        )
    }

    open spec fn state_spec(&self) -> Option<Seq<char>> {
        None
    }

    open spec fn runtime_spec(&self) -> Option<Seq<char>> {
        None
    }

    fn home_dir(&self) -> (r: &str) {
        self.home_dir.as_str()
    }

    fn config_dir(&self) -> (r: String) {
        self.data_dir()
    }

    fn data_dir(&self) -> (r: String) {
        Self::dir_inner(&self.app_data, self.home_dir.as_str(), "AppData", "Roaming")
    }

    fn cache_dir(&self) -> (r: String) {
        Self::dir_inner(&self.local_app_data, self.home_dir.as_str(), "AppData", "Local")
    }

    fn state_dir(&self) -> (r: Option<String>) {
        None
    }

    fn runtime_dir(&self) -> (r: Option<String>) {
        None
    }
}

/// The macOS convention.
#[derive(Debug)]
pub struct Apple {
    pub home_dir: String,
}

impl Apple {
    pub fn new() -> (r: Result<Apple, HomeDirError>) {
        let home_dir = home_dir()?;
        Ok(Apple { home_dir })
    }
}

impl BaseStrategy for Apple {
    open spec fn home_spec(&self) -> Seq<char> {
        self.home_dir@
    }

    open spec fn config_spec(&self) -> Seq<char> {
        joined(self.home_dir@, "Library/Preferences/"@)
    }

    open spec fn data_spec(&self) -> Seq<char> {
        joined(self.home_dir@, "Library/Application Support/"@)
    }

    open spec fn cache_spec(&self) -> Seq<char> {
        joined(self.home_dir@, "Library/Caches/"@)
    }

    open spec fn state_spec(&self) -> Option<Seq<char>> {
        None
    }

    open spec fn runtime_spec(&self) -> Option<Seq<char>> {
        None
    }

    fn home_dir(&self) -> (r: &str) {
        self.home_dir.as_str()
    }

    fn config_dir(&self) -> (r: String) {
        join_path(self.home_dir.as_str(), "Library/Preferences/")
    }

    fn data_dir(&self) -> (r: String) {
        join_path(self.home_dir.as_str(), "Library/Application Support/")
    }

    fn cache_dir(&self) -> (r: String) {
        join_path(self.home_dir.as_str(), "Library/Caches/")
    }

    fn state_dir(&self) -> (r: Option<String>) {
        None
    }

    fn runtime_dir(&self) -> (r: Option<String>) {
        None
    }
}

} // verus!
