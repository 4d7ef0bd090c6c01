//! App strategies: the directories of one application, found from what the
//! application says of itself.
use vstd::prelude::*;
use crate::etcetera::base_strategy::{self, BaseStrategy};
use crate::etcetera::HomeDirError;
use crate::path::{join_path, joined, opt_model};
use crate::text::{push_char, push_str};

verus! {

/// Lower case, character by character, as Unicode defines it.
pub uninterp spec fn lower_of(s: Seq<char>) -> Seq<char>;

/// Relies on `str::to_lowercase`: the lowercase mapping of each character
/// of `s`, in order; it depends on the characters alone.
#[verifier::external_body]
fn lowercase(s: &str) -> (r: String)
    ensures
        r@ == lower_of(s@),
{
    s.to_lowercase()
}

/// `s` with each space turned into a dash.
pub open spec fn dashed(s: Seq<char>) -> Seq<char> {
    s.map_values(|c: char| if c == ' ' { '-' } else { c })
}

/// The non-empty parts, joined by dots.
pub open spec fn dotted(parts: Seq<Seq<char>>) -> Seq<char>
    decreases parts.len(),
{
    if parts.len() == 0 {
        Seq::empty()
    } else {
        let rest = dotted(parts.drop_last());
        if parts.last().len() == 0 {
            rest
        } else if rest.len() == 0 {
            parts.last()
        } else {
            rest + "."@ + parts.last()
        }
    }
}

fn dash_spaces(s: &str) -> (r: String)
    ensures
        r@ == dashed(s@),
{
    let n = s.unicode_len();
    let mut out = String::new();
    let mut i: usize = 0;
    while i < n
        invariant
            n == s@.len(),
            i <= n,
            out@ == dashed(s@.subrange(0, i as int)),
        decreases n - i,
    {
        let c = s.get_char(i);
        proof {
            assert(dashed(s@.subrange(0, i + 1)) =~= dashed(s@.subrange(0, i as int)).push(
                if c == ' ' {
                    '-'
                } else {
                    c
                },
            ));
        }
        if c == ' ' {
            push_char(&mut out, '-');
        } else {
            push_char(&mut out, c);
        }
        i = i + 1;
    }
    assert(s@.subrange(0, n as int) =~= s@);
    out
}

/// What an application says of itself.
#[derive(Debug, Default)]
pub struct AppStrategyArgs {
    pub top_level_domain: String,
    pub author: String,
    pub app_name: String,
}

impl AppStrategyArgs {
    pub open spec fn bundle_spec(&self) -> Seq<char> {
        dotted(seq![self.top_level_domain@, dashed(lower_of(self.author@)), dashed(self.app_name@)])
    }

    pub open spec fn unixy_spec(&self) -> Seq<char> {
        dashed(lower_of(self.app_name@))
    }

    /// The bundle identifier: the top-level domain, the author in lower case
    /// and the application name, with spaces turned into dashes, the empty
    /// ones left out and the rest joined by dots.
    pub fn bundle_id(&self) -> (r: String)
        ensures
            r@ == self.bundle_spec(),
    {
        let author = lowercase(self.author.as_str());
        let author = dash_spaces(author.as_str());
        let app_name = dash_spaces(self.app_name.as_str());
        let ghost parts = seq![self.top_level_domain@, author@, app_name@];
        let mut out = String::new();
        if self.top_level_domain.unicode_len() > 0 {
            push_str(&mut out, self.top_level_domain.as_str());
        }
        proof {
            let e = Seq::<Seq<char>>::empty();
            assert(dotted(e) == Seq::<char>::empty());
            assert(parts.subrange(0, 1).drop_last() =~= e);
            assert(parts.subrange(0, 1).last() == self.top_level_domain@);
            assert(out@ == dotted(parts.subrange(0, 1)));
        }
        if author.unicode_len() > 0 {
            if out.unicode_len() > 0 {
                push_str(&mut out, ".");
            }
            push_str(&mut out, author.as_str());
        }
        proof {
            assert(parts.subrange(0, 2).drop_last() =~= parts.subrange(0, 1));
            assert(out@ == dotted(parts.subrange(0, 2)));
        }
        if app_name.unicode_len() > 0 {
            if out.unicode_len() > 0 {
                push_str(&mut out, ".");
            }
            push_str(&mut out, app_name.as_str());
        }
        proof {
            assert(parts.subrange(0, 3).drop_last() =~= parts.subrange(0, 2));
            assert(parts.subrange(0, 3) =~= parts);
        }
        out
    }

    /// The application name in lower case, with spaces turned into dashes.
    pub fn unixy_name(&self) -> (r: String)
        ensures
            r@ == self.unixy_spec(),
    {
        let lower = lowercase(self.app_name.as_str());
        dash_spaces(lower.as_str())
    }
}

/// The directories of one application.
pub trait AppStrategy {
    spec fn home_spec(&self) -> Seq<char>;

    spec fn config_spec(&self) -> Seq<char>;

    spec fn data_spec(&self) -> Seq<char>;

    spec fn cache_spec(&self) -> Seq<char>;

    spec fn state_spec(&self) -> Option<Seq<char>>;

    spec fn runtime_spec(&self) -> Option<Seq<char>>;

    fn home_dir(&self) -> (r: &str)
        ensures
            r@ == self.home_spec(),
    ;

    fn config_dir(&self) -> (r: String)
        ensures
            r@ == self.config_spec(),
    ;

    fn data_dir(&self) -> (r: String)
        ensures
            r@ == self.data_spec(),
    ;

    fn cache_dir(&self) -> (r: String)
        ensures
            r@ == self.cache_spec(),
    ;

    fn state_dir(&self) -> (r: Option<String>)
        ensures
            opt_model(r) == self.state_spec(),
    ;

    fn runtime_dir(&self) -> (r: Option<String>)
        ensures
            opt_model(r) == self.runtime_spec(),
    ;

    /// `path` inside the configuration directory.
    fn in_config_dir(&self, path: &str) -> (r: String)
        ensures
            r@ == joined(self.config_spec(), path@),
    {
        join_path(self.config_dir().as_str(), path)
    }

    /// `path` inside the data directory.
    fn in_data_dir(&self, path: &str) -> (r: String)
        ensures
            r@ == joined(self.data_spec(), path@),
    {
        join_path(self.data_dir().as_str(), path)
    }

    /// `path` inside the cache directory.
    fn in_cache_dir(&self, path: &str) -> (r: String)
        ensures
            r@ == joined(self.cache_spec(), path@),
    {
        join_path(self.cache_dir().as_str(), path)
    }

    /// `path` inside the state directory, when there is one.
    fn in_state_dir(&self, path: &str) -> (r: Option<String>)
        ensures
            opt_model(r) == match self.state_spec() {
                Some(d) => Some(joined(d, path@)),
                None => None,
            },
    {
        match self.state_dir() {
            Some(d) => Some(join_path(d.as_str(), path)),
            None => None,
        }
    }

    /// `path` inside the runtime directory, when there is one.
    fn in_runtime_dir(&self, path: &str) -> (r: Option<String>)
        ensures
            opt_model(r) == match self.runtime_spec() {
                Some(d) => Some(joined(d, path@)),
                None => None,
            },
    {
        match self.runtime_dir() {
            Some(d) => Some(join_path(d.as_str(), path)),
            None => None,
        }
    }
}

/// The macOS convention: the base directories, then the bundle identifier.
#[derive(Debug)]
pub struct Apple {
    pub base_strategy: base_strategy::Apple,
    pub bundle_id: String,
}

impl Apple {
    pub fn new(args: AppStrategyArgs) -> (r: Result<Apple, HomeDirError>)
        ensures
            r matches Ok(a) ==> a.bundle_id@ == args.bundle_spec(),
    {
        let base_strategy = base_strategy::Apple::new()?;
        Ok(Apple { base_strategy, bundle_id: args.bundle_id() })
    }
}

impl AppStrategy for Apple {
    open spec fn home_spec(&self) -> Seq<char> {
        self.base_strategy.home_spec()
    }

    open spec fn config_spec(&self) -> Seq<char> {
        joined(self.base_strategy.config_spec(), self.bundle_id@)
    }

    open spec fn data_spec(&self) -> Seq<char> {
        joined(self.base_strategy.data_spec(), self.bundle_id@)
    }

    open spec fn cache_spec(&self) -> Seq<char> {
        joined(self.base_strategy.cache_spec(), self.bundle_id@)
    }

    open spec fn state_spec(&self) -> Option<Seq<char>> {
        None
    }

    open spec fn runtime_spec(&self) -> Option<Seq<char>> {
        None
    }

    fn home_dir(&self) -> (r: &str) {
        self.base_strategy.home_dir()
    }

    fn config_dir(&self) -> (r: String) {
        join_path(self.base_strategy.config_dir().as_str(), self.bundle_id.as_str())
    }

    fn data_dir(&self) -> (r: String) {
        join_path(self.base_strategy.data_dir().as_str(), self.bundle_id.as_str())
    }

    fn cache_dir(&self) -> (r: String) {
        join_path(self.base_strategy.cache_dir().as_str(), self.bundle_id.as_str())
    }

    fn state_dir(&self) -> (r: Option<String>) {
        None
    }

    fn runtime_dir(&self) -> (r: Option<String>) {
        None
    }
}

/// The Unix convention: one dot-directory under the home directory.
#[derive(Debug)]
pub struct Unix {
    pub home_dir: String,
    pub unixy_name: String,
}

impl Unix {
    pub fn new(args: AppStrategyArgs) -> (r: Result<Unix, HomeDirError>)
        ensures
            r matches Ok(u) ==> u.unixy_name@ == "."@ + args.unixy_spec(),
    {
        let home_dir = crate::etcetera::home_dir()?;
        let mut unixy_name = ".".to_owned();
        let name = args.unixy_name();
        push_str(&mut unixy_name, name.as_str());
        Ok(Unix { home_dir, unixy_name })
    }

    pub open spec fn root_spec(&self) -> Seq<char> {
        joined(self.home_dir@, self.unixy_name@)
    }

    fn root(&self) -> (r: String)
        ensures
            r@ == self.root_spec(),
    {
        join_path(self.home_dir.as_str(), self.unixy_name.as_str())
    }
}

impl AppStrategy for Unix {
    open spec fn home_spec(&self) -> Seq<char> {
        self.home_dir@
    }

    open spec fn config_spec(&self) -> Seq<char> {
        self.root_spec()
    }

    open spec fn data_spec(&self) -> Seq<char> {
        joined(self.root_spec(), "data/"@)
    }

    open spec fn cache_spec(&self) -> Seq<char> {
        joined(self.root_spec(), "cache/"@)
    }

    open spec fn state_spec(&self) -> Option<Seq<char>> {
        Some(joined(self.root_spec(), "state/"@))
    }

    open spec fn runtime_spec(&self) -> Option<Seq<char>> {
        Some(joined(self.root_spec(), "runtime/"@))
    }

    fn home_dir(&self) -> (r: &str) {
        self.home_dir.as_str()
    }

    fn config_dir(&self) -> (r: String) {
        self.root()
    }

    fn data_dir(&self) -> (r: String) {
        join_path(self.root().as_str(), "data/")
    }

    fn cache_dir(&self) -> (r: String) {
        join_path(self.root().as_str(), "cache/")
    }

    fn state_dir(&self) -> (r: Option<String>) {
        Some(join_path(self.root().as_str(), "state/"))
    }

    fn runtime_dir(&self) -> (r: Option<String>) {
        Some(join_path(self.root().as_str(), "runtime/"))
    }
}

/// The Windows convention: the known folders, then author and application,
/// then one folder for each kind of file.
#[derive(Debug)]
pub struct Windows {
    pub base_strategy: base_strategy::Windows,
    pub author_app_name_path: String,
}

impl Windows {
    pub fn new(
        args: AppStrategyArgs,
        app_data: Option<String>,
        local_app_data: Option<String>,
    ) -> (r: Result<Windows, HomeDirError>)
        ensures
            r matches Ok(w) ==> w.author_app_name_path@ == joined(args.author@, args.app_name@),
    {
        let base_strategy = base_strategy::Windows::new(app_data, local_app_data)?;
        let author_app_name_path = join_path(args.author.as_str(), args.app_name.as_str());
        Ok(Windows { base_strategy, author_app_name_path })
    }

    fn dir(&self, base: String, sub: &str) -> (r: String)
        ensures
            r@ == joined(joined(base@, self.author_app_name_path@), sub@),
    {
        let p = join_path(base.as_str(), self.author_app_name_path.as_str());
        join_path(p.as_str(), sub)
    }
}

impl AppStrategy for Windows {
    open spec fn home_spec(&self) -> Seq<char> {
        self.base_strategy.home_spec()
    }

    open spec fn config_spec(&self) -> Seq<char> {
        joined(joined(self.base_strategy.config_spec(), self.author_app_name_path@), "config"@)
    }

    open spec fn data_spec(&self) -> Seq<char> {
        joined(joined(self.base_strategy.data_spec(), self.author_app_name_path@), "data"@)
    }

    open spec fn cache_spec(&self) -> Seq<char> {
        joined(joined(self.base_strategy.cache_spec(), self.author_app_name_path@), "cache"@)
    }

    open spec fn state_spec(&self) -> Option<Seq<char>> {
        None
    }

    open spec fn runtime_spec(&self) -> Option<Seq<char>> {
        None
    }

    fn home_dir(&self) -> (r: &str) {
        self.base_strategy.home_dir()
    }

    fn config_dir(&self) -> (r: String) {
        self.dir(self.base_strategy.config_dir(), "config")
    }

    fn data_dir(&self) -> (r: String) {
        self.dir(self.base_strategy.data_dir(), "data")
    }

    fn cache_dir(&self) -> (r: String) {
        self.dir(self.base_strategy.cache_dir(), "cache")
    }

    fn state_dir(&self) -> (r: Option<String>) {
        None
    }

    fn runtime_dir(&self) -> (r: Option<String>) {
        None
    }
}

/// The XDG convention: the base directories, then the application's name.
#[derive(Debug)]
pub struct Xdg {
    pub base_strategy: base_strategy::Xdg,
    pub unixy_name: String,
}

impl Xdg {
    pub fn new(args: AppStrategyArgs, vars: base_strategy::XdgVars) -> (r: Result<
        Xdg,
        HomeDirError,
    >)
        ensures
            r matches Ok(x) ==> x.unixy_name@ == args.unixy_spec() && x.base_strategy.vars == vars,
    {
        let base_strategy = base_strategy::Xdg::new(vars)?;
        Ok(Xdg { base_strategy, unixy_name: args.unixy_name() })
    }
}

impl AppStrategy for Xdg {
    open spec fn home_spec(&self) -> Seq<char> {
        self.base_strategy.home_spec()
    }

    open spec fn config_spec(&self) -> Seq<char> {
        joined(self.base_strategy.config_spec(), self.unixy_name@)
    }

    open spec fn data_spec(&self) -> Seq<char> {
        joined(self.base_strategy.data_spec(), self.unixy_name@)
    }

    open spec fn cache_spec(&self) -> Seq<char> {
        joined(self.base_strategy.cache_spec(), self.unixy_name@)
    }

    open spec fn state_spec(&self) -> Option<Seq<char>> {
        match self.base_strategy.state_spec() {
            Some(p) => Some(joined(p, self.unixy_name@)),
            None => None,
        }
    }

    open spec fn runtime_spec(&self) -> Option<Seq<char>> {
        match self.base_strategy.runtime_spec() {
            Some(p) => Some(joined(p, self.unixy_name@)),
            None => None,
        }
    }

    fn home_dir(&self) -> (r: &str) {
        self.base_strategy.home_dir()
    }

    fn config_dir(&self) -> (r: String) {
        join_path(self.base_strategy.config_dir().as_str(), self.unixy_name.as_str())
    }

    fn data_dir(&self) -> (r: String) {
        join_path(self.base_strategy.data_dir().as_str(), self.unixy_name.as_str())
    }

    fn cache_dir(&self) -> (r: String) {
        join_path(self.base_strategy.cache_dir().as_str(), self.unixy_name.as_str())
    }

    fn state_dir(&self) -> (r: Option<String>) {
        match self.base_strategy.state_dir() {
            Some(p) => Some(join_path(p.as_str(), self.unixy_name.as_str())),
            None => None,
        }
    }

    fn runtime_dir(&self) -> (r: Option<String>) {
        match self.base_strategy.runtime_dir() {
            Some(p) => Some(join_path(p.as_str(), self.unixy_name.as_str())),
            None => None,
        }
    }
}

} // verus!
