use cargo_expand::cmd::decimal_string;
use cargo_expand::{apply_args, CommandArgs, Coloring, Expand};

fn run(args: &Expand, color: Coloring, tty: bool, windows: bool, default_run: Option<&str>) -> Vec<String> {
    let mut cmd = CommandArgs::new();
    apply_args(&mut cmd, args, color, tty, windows, default_run.map(|s| s.to_string()), "/tmp/out/expanded");
    cmd.to_vec()
}

#[test]
fn minimal_command() {
    let args = Expand::default();
    assert_eq!(
        run(&args, Coloring::Auto, false, false, None),
        vec!["rustc", "--color=never", "--profile=check", "--", "-o", "/tmp/out/expanded", "-Zunpretty=expanded"]
    );
}

#[test]
fn auto_color_follows_terminal_except_on_windows() {
    let args = Expand::default();
    assert_eq!(run(&args, Coloring::Auto, true, false, None)[1], "--color=always");
    assert_eq!(run(&args, Coloring::Auto, true, true, None)[1], "--color=never");
    assert_eq!(run(&args, Coloring::Always, false, true, None)[1], "--color=always");
    assert_eq!(run(&args, Coloring::Never, true, false, None)[1], "--color=never");
}

#[test]
fn full_command() {
    let args = Expand {
        verbose: true,
        config: vec!["a=1".to_string(), "b=2".to_string()],
        unstable_flags: vec!["macro-backtrace".to_string()],
        package: Some(Some("p".to_string())),
        lib: true,
        bin: Some(None),
        features: Some("x y".to_string()),
        all_features: true,
        no_default_features: true,
        jobs: Some(1203),
        release: true,
        target: Some("x86_64".to_string()),
        target_dir: Some("t".to_string()),
        manifest_path: Some("m/Cargo.toml".to_string()),
        frozen: true,
        locked: true,
        offline: true,
        ..Expand::default()
    };
    assert_eq!(
        run(&args, Coloring::Always, false, false, Some("ignored")),
        vec![
            "rustc", "--verbose", "--color=always", "--config=a=1", "--config=b=2", "-Zmacro-backtrace",
            "--package=p", "--lib", "--bin", "--features=x y", "--all-features", "--no-default-features",
            "--jobs=1203", "--profile=release", "--target=x86_64", "--target-dir=t",
            "--manifest-path=m/Cargo.toml", "--frozen", "--locked", "--offline", "--", "-o",
            "/tmp/out/expanded", "-Zunpretty=expanded",
        ]
    );
}

#[test]
fn default_run_only_without_explicit_target() {
    let args = Expand::default();
    assert!(run(&args, Coloring::Never, false, false, Some("app")).contains(&"--bin=app".to_string()));
    let args = Expand { example: Some(Some("e".to_string())), ..Expand::default() };
    let out = run(&args, Coloring::Never, false, false, Some("app"));
    assert!(out.contains(&"--example=e".to_string()));
    assert!(!out.contains(&"--bin=app".to_string()));
}

#[test]
fn profiles() {
    let tests = Expand { tests: true, ..Expand::default() };
    assert!(run(&tests, Coloring::Never, false, false, None).contains(&"--profile=test".to_string()));
    let bench = Expand { tests: true, release: true, ..Expand::default() };
    assert!(run(&bench, Coloring::Never, false, false, None).contains(&"--profile=bench".to_string()));
    let named = Expand { profile: Some("dev".to_string()), release: true, ..Expand::default() };
    assert!(run(&named, Coloring::Never, false, false, None).contains(&"--profile=dev".to_string()));
    let test_target = Expand { tests: true, test: Some(Some("t".to_string())), ..Expand::default() };
    assert!(run(&test_target, Coloring::Never, false, false, None).contains(&"--profile=check".to_string()));
}

#[test]
fn decimal_digits() {
    assert_eq!(decimal_string(0), "0");
    assert_eq!(decimal_string(7), "7");
    assert_eq!(decimal_string(10), "10");
    assert_eq!(decimal_string(18446744073709551615), "18446744073709551615");
}

#[test]
fn command_args_building() {
    let mut cmd = CommandArgs::new();
    cmd.arg("a");
    cmd.flag_value("--k", "v");
    cmd.args(&vec!["x".to_string(), "y".to_string()]);
    assert_eq!(cmd.to_vec(), vec!["a", "--k=v", "x", "y"]);
}
