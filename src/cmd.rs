//! The Cargo command line that asks rustc for the expanded source.
use vstd::prelude::*;
use crate::filter::strings_model;
use crate::opts::Coloring;
use crate::text::{copy_string, push_char, push_str};

verus! {

/// Arguments of a command, in order.
#[derive(Debug)]
pub struct CommandArgs {
    args: Vec<String>,
}

impl View for CommandArgs {
    type V = Seq<Seq<char>>;

    closed spec fn view(&self) -> Seq<Seq<char>> {
        strings_model(self.args@)
    }
}

/// `k=v`, the form in which a flag and its value are passed.
pub open spec fn kv(k: Seq<char>, v: Seq<char>) -> Seq<char> {
    k + "="@ + v
}

impl CommandArgs {
    pub fn new() -> (r: CommandArgs)
        ensures
            r@ == Seq::<Seq<char>>::empty(),
    {
        let r = CommandArgs { args: Vec::new() };
        assert(r@ =~= Seq::<Seq<char>>::empty());
        r
    }

    pub fn arg(&mut self, arg: &str)
        ensures
            final(self)@ == old(self)@.push(arg@),
    {
        let a = arg.to_owned();
        self.args.push(a);
        assert(strings_model(self.args@) =~= strings_model(old(self).args@).push(arg@));
    }

    /// Passes a flag and its value as one argument, `k=v`.
    pub fn flag_value(&mut self, k: &str, v: &str)
        ensures
            final(self)@ == old(self)@.push(kv(k@, v@)),
    {
        let mut s = k.to_owned();
        push_char(&mut s, '=');
        push_str(&mut s, v);
        proof {
            reveal_strlit("=");
            assert(k@.push('=') =~= k@ + "="@);
        }
        self.arg(s.as_str());
    }

    pub fn args(&mut self, args: &Vec<String>)
        ensures
            final(self)@ == old(self)@ + strings_model(args@),
    {
        let mut i: usize = 0;
        while i < args.len()
            invariant
                i <= args@.len(),
                self@ == old(self)@ + strings_model(args@.subrange(0, i as int)),
            decreases args@.len() - i,
        {
            assert(strings_model(args@.subrange(0, i + 1)) =~= strings_model(
                args@.subrange(0, i as int),
            ).push(args@[i as int]@));
            self.arg(args[i].as_str());
            i = i + 1;
        }
        assert(args@.subrange(0, args@.len() as int) =~= args@);
    }

    /// The arguments, in order.
    pub fn to_vec(&self) -> (r: Vec<String>)
        ensures
            strings_model(r@) == self@,
    {
        let mut r: Vec<String> = Vec::new();
        let mut i: usize = 0;
        while i < self.args.len()
            invariant
                i <= self.args@.len(),
                strings_model(r@) == strings_model(self.args@.subrange(0, i as int)),
            decreases self.args@.len() - i,
        {
            let a = copy_string(&self.args[i]);
            assert(strings_model(self.args@.subrange(0, i + 1)) =~= strings_model(
                self.args@.subrange(0, i as int),
            ).push(a@));
            assert(strings_model(r@.push(a)) =~= strings_model(r@).push(a@));
            r.push(a);
            i = i + 1;
        }
        assert(self.args@.subrange(0, self.args@.len() as int) =~= self.args@);
        r
    }
}

/// The options of `cargo expand` that shape the Cargo command.
#[derive(Debug, Default)]
pub struct Expand {
    pub ugly: bool,
    pub theme: Option<String>,
    pub themes: bool,
    pub verbose: bool,
    pub color: Option<Coloring>,
    pub config: Vec<String>,
    pub unstable_flags: Vec<String>,
    pub version: bool,
    pub package: Option<Option<String>>,
    pub lib: bool,
    pub bin: Option<Option<String>>,
    pub example: Option<Option<String>>,
    pub test: Option<Option<String>>,
    pub tests: bool,
    pub bench: Option<Option<String>>,
    pub features: Option<String>,
    pub all_features: bool,
    pub no_default_features: bool,
    pub jobs: Option<u64>,
    pub release: bool,
    pub profile: Option<String>,
    pub target: Option<String>,
    pub target_dir: Option<String>,
    pub manifest_path: Option<String>,
    pub frozen: bool,
    pub locked: bool,
    pub offline: bool,
    pub item: Option<String>,
}

pub open spec fn flag_if(b: bool, f: Seq<char>) -> Seq<Seq<char>> {
    if b {
        seq![f]
    } else {
        Seq::empty()
    }
}

pub open spec fn opt_value(o: Option<String>, k: Seq<char>) -> Seq<Seq<char>> {
    match o {
        Some(v) => seq![kv(k, v@)],
        None => Seq::empty(),
    }
}

/// A flag whose value may be left out: absent, bare, or with its value.
pub open spec fn opt_opt_value(o: Option<Option<String>>, k: Seq<char>) -> Seq<Seq<char>> {
    match o {
        None => Seq::empty(),
        Some(None) => seq![k],
        Some(Some(v)) => seq![kv(k, v@)],
    }
}

/// One `k=v` for each value.
pub open spec fn each_value(vs: Seq<Seq<char>>, k: Seq<char>) -> Seq<Seq<char>>
    decreases vs.len(),
{
    if vs.len() == 0 {
        Seq::empty()
    } else {
        each_value(vs.drop_last(), k).push(kv(k, vs.last()))
    }
}

/// One `-Z<flag>` for each flag.
pub open spec fn each_unstable(vs: Seq<Seq<char>>) -> Seq<Seq<char>>
    decreases vs.len(),
{
    if vs.len() == 0 {
        Seq::empty()
    } else {
        each_unstable(vs.drop_last()).push("-Z"@ + vs.last())
    }
}

/// The decimal digits of `n`.
pub open spec fn decimal(n: nat) -> Seq<char>
    decreases n,
{
    if n < 10 {
        seq![digit(n)]
    } else {
        decimal(n / 10).push(digit(n % 10))
    }
}

pub open spec fn digit(d: nat) -> char {
    (('0' as u8) + (d as u8)) as char
}

pub open spec fn color_value(color: Coloring, stderr_is_terminal: bool, on_windows: bool) -> Seq<
    char,
> {
    match color {
        Coloring::Auto => if !on_windows && stderr_is_terminal {
            "always"@
        } else {
            "never"@
        },
        Coloring::Always => "always"@,
        Coloring::Never => "never"@,
    }
}

pub open spec fn explicit_target(args: Expand) -> bool {
    args.lib || args.bin is Some || args.example is Some || args.test is Some || args.bench is Some
}

pub open spec fn profile_value(args: Expand) -> Seq<char> {
    match args.profile {
        Some(p) => p@,
        None => if args.tests && args.test is None {
            if args.release {
                "bench"@
            } else {
                "test"@
            }
        } else if args.release {
            "release"@
        } else {
            "check"@
        },
    }
}

/// Verbosity, color, configuration and unstable flags, and the package.
pub open spec fn general_args(
    args: Expand,
    color: Coloring,
    stderr_is_terminal: bool,
    on_windows: bool,
) -> Seq<Seq<char>> {
    seq!["rustc"@] + flag_if(args.verbose, "--verbose"@) + seq![
        kv("--color"@, color_value(color, stderr_is_terminal, on_windows)),
    ] + each_value(strings_model(args.config@), "--config"@) + each_unstable(
        strings_model(args.unstable_flags@),
    ) + opt_opt_value(args.package, "--package"@)
}

/// The targets named, or the package's `default-run` binary when none is.
pub open spec fn target_args(args: Expand, default_run: Option<String>) -> Seq<Seq<char>> {
    flag_if(args.lib, "--lib"@) + opt_opt_value(args.bin, "--bin"@) + opt_opt_value(
        args.example,
        "--example"@,
    ) + opt_opt_value(args.test, "--test"@) + opt_opt_value(args.bench, "--bench"@) + (if explicit_target(args) {
        Seq::empty()
    } else {
        opt_value(default_run, "--bin"@)
    })
}

/// Features, jobs, the profile, the target and the manifest options.
pub open spec fn build_args(args: Expand) -> Seq<Seq<char>> {
    opt_value(args.features, "--features"@) + flag_if(args.all_features, "--all-features"@)
        + flag_if(args.no_default_features, "--no-default-features"@) + (match args.jobs {
        Some(j) => seq![kv("--jobs"@, decimal(j as nat))],
        None => Seq::empty(),
    }) + seq![kv("--profile"@, profile_value(args))] + opt_value(args.target, "--target"@)
        + opt_value(args.target_dir, "--target-dir"@) + opt_value(
        args.manifest_path,
        "--manifest-path"@,
    ) + flag_if(args.frozen, "--frozen"@) + flag_if(args.locked, "--locked"@) + flag_if(
        args.offline,
        "--offline"@,
    )
}

/// The arguments of `cargo rustc` that write the expanded source of the
/// selected target to `outfile`. `default_run` is the package's
/// `default-run` binary, used when no target is named.
pub open spec fn expand_args(
    args: Expand,
    color: Coloring,
    stderr_is_terminal: bool,
    on_windows: bool,
    default_run: Option<String>,
    outfile: Seq<char>,
) -> Seq<Seq<char>> {
    general_args(args, color, stderr_is_terminal, on_windows) + target_args(args, default_run)
        + build_args(args) + seq!["--"@, "-o"@, outfile, "-Zunpretty=expanded"@]
}

/// The decimal digits of `n`.
pub fn decimal_string(n: u64) -> (r: String)
    ensures
        r@ == decimal(n as nat),
{
    let mut digits: Vec<char> = Vec::new();
    let mut m: u64 = n;
    loop
        invariant_except_break
            decimal(n as nat) == decimal(m as nat) + reverse_of(digits@),
        ensures
            decimal(n as nat) == reverse_of(digits@),
        decreases m,
    {
        let d = m % 10;
        let c = ((('0' as u8) + (d as u8)) as char);
        assert(c == digit((m % 10) as nat));
        proof {
            let rest = reverse_of(digits@);
            assert(reverse_of(digits@.push(c)) =~= seq![c] + rest) by {
                lemma_reverse_push(digits@, c);
            }
        }
        if m < 10 {
            assert(decimal(m as nat) == seq![c]);
            digits.push(c);
            break;
        }
        assert(decimal(m as nat) == decimal((m / 10) as nat).push(c));
        digits.push(c);
        m = m / 10;
    }
    let mut r = String::new();
    let mut i: usize = digits.len();
    while i > 0
        invariant
            i <= digits@.len(),
            decimal(n as nat) == reverse_of(digits@),
            r@ == reverse_of(digits@.subrange(i as int, digits@.len() as int)),
        decreases i,
    {
        i = i - 1;
        proof {
            let s = digits@.subrange(i as int, digits@.len() as int);
            assert(s =~= seq![digits@[i as int]] + digits@.subrange(i + 1, digits@.len() as int));
            lemma_reverse_prepend(digits@.subrange(i + 1, digits@.len() as int), digits@[i as int]);
        }
        push_char(&mut r, digits[i]);
    }
    assert(digits@.subrange(0, digits@.len() as int) =~= digits@);
    r
}

pub open spec fn reverse_of(s: Seq<char>) -> Seq<char>
    decreases s.len(),
{
    if s.len() == 0 {
        s
    } else {
        seq![s.last()] + reverse_of(s.drop_last())
    }
}

proof fn lemma_reverse_push(s: Seq<char>, c: char)
    ensures
        reverse_of(s.push(c)) == seq![c] + reverse_of(s),
{
    assert(s.push(c).drop_last() =~= s);
}

proof fn lemma_reverse_prepend(s: Seq<char>, c: char)
    ensures
        reverse_of(seq![c] + s) == reverse_of(s).push(c),
    decreases s.len(),
{
    if s.len() == 0 {
        assert(seq![c] + s =~= seq![c]);
        assert(seq![c].drop_last() =~= Seq::<char>::empty());
        assert(reverse_of(Seq::<char>::empty()) == Seq::<char>::empty());
        assert(seq![c] + Seq::<char>::empty() =~= Seq::<char>::empty().push(c));
    } else {
        let t = s.drop_last();
        lemma_reverse_prepend(t, c);
        assert((seq![c] + s).drop_last() =~= seq![c] + t);
        assert((seq![c] + s).last() == s.last());
        assert(seq![s.last()] + reverse_of(t).push(c) =~= (seq![s.last()] + reverse_of(t)).push(c));
    }
}

fn push_flag_if(cmd: &mut CommandArgs, b: bool, f: &str)
    ensures
        final(cmd)@ == old(cmd)@ + flag_if(b, f@),
{
    if b {
        cmd.arg(f);
    } else {
        assert(old(cmd)@ + Seq::<Seq<char>>::empty() =~= old(cmd)@);
    }
}

fn push_opt_value(cmd: &mut CommandArgs, o: &Option<String>, k: &str)
    ensures
        final(cmd)@ == old(cmd)@ + opt_value(*o, k@),
{
    match o {
        Some(v) => cmd.flag_value(k, v.as_str()),
        None => {
            assert(old(cmd)@ + Seq::<Seq<char>>::empty() =~= old(cmd)@);
        },
    }
}

fn push_opt_opt_value(cmd: &mut CommandArgs, o: &Option<Option<String>>, k: &str)
    ensures
        final(cmd)@ == old(cmd)@ + opt_opt_value(*o, k@),
{
    match o {
        Some(Some(v)) => cmd.flag_value(k, v.as_str()),
        Some(None) => cmd.arg(k),
        None => {
            assert(old(cmd)@ + Seq::<Seq<char>>::empty() =~= old(cmd)@);
        },
    }
}

fn push_each_value(cmd: &mut CommandArgs, vs: &Vec<String>, k: &str)
    ensures
        final(cmd)@ == old(cmd)@ + each_value(strings_model(vs@), k@),
{
    let mut i: usize = 0;
    proof {
        assert(strings_model(vs@.subrange(0, 0)) =~= Seq::<Seq<char>>::empty());
        assert(old(cmd)@ + Seq::<Seq<char>>::empty() =~= old(cmd)@);
    }
    while i < vs.len()
        invariant
            i <= vs@.len(),
            cmd@ == old(cmd)@ + each_value(strings_model(vs@.subrange(0, i as int)), k@),
        decreases vs@.len() - i,
    {
        proof {
            let pre = strings_model(vs@.subrange(0, i as int));
            let next = strings_model(vs@.subrange(0, i + 1));
            assert(next.drop_last() =~= pre);
            assert(next.last() == vs@[i as int]@);
            assert(old(cmd)@ + each_value(pre, k@).push(kv(k@, vs@[i as int]@)) =~= (old(cmd)@
                + each_value(pre, k@)).push(kv(k@, vs@[i as int]@)));
        }
        cmd.flag_value(k, vs[i].as_str());
        i = i + 1;
    }
    assert(vs@.subrange(0, vs@.len() as int) =~= vs@);
}

fn push_each_unstable(cmd: &mut CommandArgs, vs: &Vec<String>)
    ensures
        final(cmd)@ == old(cmd)@ + each_unstable(strings_model(vs@)),
{
    let mut i: usize = 0;
    proof {
        assert(strings_model(vs@.subrange(0, 0)) =~= Seq::<Seq<char>>::empty());
        assert(old(cmd)@ + Seq::<Seq<char>>::empty() =~= old(cmd)@);
    }
    while i < vs.len()
        invariant
            i <= vs@.len(),
            cmd@ == old(cmd)@ + each_unstable(strings_model(vs@.subrange(0, i as int))),
        decreases vs@.len() - i,
    {
        let mut z = "-Z".to_owned();
        push_str(&mut z, vs[i].as_str());
        proof {
            let pre = strings_model(vs@.subrange(0, i as int));
            let next = strings_model(vs@.subrange(0, i + 1));
            assert(next.drop_last() =~= pre);
            assert(next.last() == vs@[i as int]@);
            assert(old(cmd)@ + each_unstable(pre).push(z@) =~= (old(cmd)@ + each_unstable(
                pre,
            )).push(z@));
        }
        cmd.arg(z.as_str());
        i = i + 1;
    }
    assert(vs@.subrange(0, vs@.len() as int) =~= vs@);
}

fn color_name(color: Coloring, stderr_is_terminal: bool, on_windows: bool) -> (r: &'static str)
    ensures
        r@ == color_value(color, stderr_is_terminal, on_windows),
{
    match color {
        Coloring::Auto => if !on_windows && stderr_is_terminal {
            "always"
        } else {
            "never"
        },
        Coloring::Always => "always",
        Coloring::Never => "never",
    }
}

fn profile_name(args: &Expand) -> (r: String)
    ensures
        r@ == profile_value(*args),
{
    match &args.profile {
        Some(p) => p.clone(),
        None => if args.tests && args.test.is_none() {
            if args.release {
                "bench".to_owned()
            } else {
                "test".to_owned()
            }
        } else if args.release {
            "release".to_owned()
        } else {
            "check".to_owned()
        },
    }
}

proof fn lemma_assoc(a: Seq<Seq<char>>, b: Seq<Seq<char>>, c: Seq<Seq<char>>)
    ensures
        a + b + c == a + (b + c),
{
    assert(a + b + c =~= a + (b + c));
}

fn push_general(
    cmd: &mut CommandArgs,
    args: &Expand,
    color: Coloring,
    stderr_is_terminal: bool,
    on_windows: bool,
)
    ensures
        final(cmd)@ == old(cmd)@ + general_args(*args, color, stderr_is_terminal, on_windows),
{
    let ghost start = cmd@;
    cmd.arg("rustc");
    let ghost acc: Seq<Seq<char>> = seq!["rustc"@];
    assert(cmd@ == start + acc) by {
        assert(start.push("rustc"@) =~= start + acc);
    }
    push_flag_if(cmd, args.verbose, "--verbose");
    proof {
        lemma_assoc(start, acc, flag_if(args.verbose, "--verbose"@));
    }
    let ghost acc = acc + flag_if(args.verbose, "--verbose"@);
    let ghost piece = seq![kv("--color"@, color_value(color, stderr_is_terminal, on_windows))];
    cmd.flag_value("--color", color_name(color, stderr_is_terminal, on_windows));
    proof {
        assert((start + acc).push(piece[0]) =~= start + acc + piece);
        lemma_assoc(start, acc, piece);
    }
    let ghost acc = acc + piece;
    push_each_value(cmd, &args.config, "--config");
    proof {
        lemma_assoc(start, acc, each_value(strings_model(args.config@), "--config"@));
    }
    let ghost acc = acc + each_value(strings_model(args.config@), "--config"@);
    push_each_unstable(cmd, &args.unstable_flags);
    proof {
        lemma_assoc(start, acc, each_unstable(strings_model(args.unstable_flags@)));
    }
    let ghost acc = acc + each_unstable(strings_model(args.unstable_flags@));
    push_opt_opt_value(cmd, &args.package, "--package");
    proof {
        lemma_assoc(start, acc, opt_opt_value(args.package, "--package"@));
    }
}

fn push_targets(cmd: &mut CommandArgs, args: &Expand, default_run: Option<String>)
    ensures
        final(cmd)@ == old(cmd)@ + target_args(*args, default_run),
{
    let ghost start = cmd@;
    push_flag_if(cmd, args.lib, "--lib");
    let ghost acc = flag_if(args.lib, "--lib"@);
    push_opt_opt_value(cmd, &args.bin, "--bin");
    proof {
        lemma_assoc(start, acc, opt_opt_value(args.bin, "--bin"@));
    }
    let ghost acc = acc + opt_opt_value(args.bin, "--bin"@);
    push_opt_opt_value(cmd, &args.example, "--example");
    proof {
        lemma_assoc(start, acc, opt_opt_value(args.example, "--example"@));
    }
    let ghost acc = acc + opt_opt_value(args.example, "--example"@);
    push_opt_opt_value(cmd, &args.test, "--test");
    proof {
        lemma_assoc(start, acc, opt_opt_value(args.test, "--test"@));
    }
    let ghost acc = acc + opt_opt_value(args.test, "--test"@);
    push_opt_opt_value(cmd, &args.bench, "--bench");
    proof {
        lemma_assoc(start, acc, opt_opt_value(args.bench, "--bench"@));
    }
    let ghost acc = acc + opt_opt_value(args.bench, "--bench"@);
    let has_explicit_build_target = args.lib || args.bin.is_some() || args.example.is_some()
        || args.test.is_some() || args.bench.is_some();
    let ghost piece = if explicit_target(*args) {
        Seq::<Seq<char>>::empty()
    } else {
        opt_value(default_run, "--bin"@)
    };
    if !has_explicit_build_target {
        push_opt_value(cmd, &default_run, "--bin");
    } else {
        assert(start + acc + piece =~= start + acc);
    }
    proof {
        lemma_assoc(start, acc, piece);
    }
}

fn push_build(cmd: &mut CommandArgs, args: &Expand)
    ensures
        final(cmd)@ == old(cmd)@ + build_args(*args),
{
    let ghost start = cmd@;
    push_opt_value(cmd, &args.features, "--features");
    let ghost acc = opt_value(args.features, "--features"@);
    push_flag_if(cmd, args.all_features, "--all-features");
    proof {
        lemma_assoc(start, acc, flag_if(args.all_features, "--all-features"@));
    }
    let ghost acc = acc + flag_if(args.all_features, "--all-features"@);
    push_flag_if(cmd, args.no_default_features, "--no-default-features");
    proof {
        lemma_assoc(start, acc, flag_if(args.no_default_features, "--no-default-features"@));
    }
    let ghost acc = acc + flag_if(args.no_default_features, "--no-default-features"@);
    let ghost piece = match args.jobs {
        Some(j) => seq![kv("--jobs"@, decimal(j as nat))],
        None => Seq::<Seq<char>>::empty(),
    };
    match args.jobs {
        Some(j) => {
            let digits = decimal_string(j);
            cmd.flag_value("--jobs", digits.as_str());
            assert((start + acc).push(piece[0]) =~= start + acc + piece);
        },
        None => {
            assert(start + acc + piece =~= start + acc);
        },
    }
    proof {
        lemma_assoc(start, acc, piece);
    }
    let ghost acc = acc + piece;
    let ghost piece = seq![kv("--profile"@, profile_value(*args))];
    let profile = profile_name(args);
    cmd.flag_value("--profile", profile.as_str());
    proof {
        assert((start + acc).push(piece[0]) =~= start + acc + piece);
        lemma_assoc(start, acc, piece);
    }
    let ghost acc = acc + piece;
    push_opt_value(cmd, &args.target, "--target");
    proof {
        lemma_assoc(start, acc, opt_value(args.target, "--target"@));
    }
    let ghost acc = acc + opt_value(args.target, "--target"@);
    push_opt_value(cmd, &args.target_dir, "--target-dir");
    proof {
        lemma_assoc(start, acc, opt_value(args.target_dir, "--target-dir"@));
    }
    let ghost acc = acc + opt_value(args.target_dir, "--target-dir"@);
    push_opt_value(cmd, &args.manifest_path, "--manifest-path");
    proof {
        lemma_assoc(start, acc, opt_value(args.manifest_path, "--manifest-path"@));
    }
    let ghost acc = acc + opt_value(args.manifest_path, "--manifest-path"@);
    push_flag_if(cmd, args.frozen, "--frozen");
    proof {
        lemma_assoc(start, acc, flag_if(args.frozen, "--frozen"@));
    }
    let ghost acc = acc + flag_if(args.frozen, "--frozen"@);
    push_flag_if(cmd, args.locked, "--locked");
    proof {
        lemma_assoc(start, acc, flag_if(args.locked, "--locked"@));
    }
    let ghost acc = acc + flag_if(args.locked, "--locked"@);
    push_flag_if(cmd, args.offline, "--offline");
    proof {
        lemma_assoc(start, acc, flag_if(args.offline, "--offline"@));
    }
}

/// Appends the arguments of `cargo rustc` that write the expanded source
/// of the selected target to `outfile`: verbosity, color, configuration
/// and unstable flags, package and target selection (the package's
/// `default-run` binary when no target is named), features, jobs, the
/// profile, target, directories and manifest options, then the rustc
/// arguments after `--`.
pub fn apply_args(
    cmd: &mut CommandArgs,
    args: &Expand,
    color: Coloring,
    stderr_is_terminal: bool,
    on_windows: bool,
    default_run: Option<String>,
    outfile: &str,
)
    ensures
        final(cmd)@ == old(cmd)@ + expand_args(
            *args,
            color,
            stderr_is_terminal,
            on_windows,
            default_run,
            outfile@,
        ),
{
    let ghost start = cmd@;
    let ghost g = general_args(*args, color, stderr_is_terminal, on_windows);
    let ghost t = target_args(*args, default_run);
    let ghost b = build_args(*args);
    push_general(cmd, args, color, stderr_is_terminal, on_windows);
    push_targets(cmd, args, default_run);
    push_build(cmd, args);
    cmd.arg("--");
    cmd.arg("-o");
    cmd.arg(outfile);
    cmd.arg("-Zunpretty=expanded");
    proof {
        let tail = seq!["--"@, "-o"@, outfile@, "-Zunpretty=expanded"@];
        assert(cmd@ =~= start + g + t + b + tail);
        assert(start + g + t + b + tail =~= start + (g + t + b + tail));
    }
}

} // verus!
