use cargo_expand::version::Version;
use cargo_expand::{deserialize, get_color, ignore_cargo_err, Coloring, Config};

#[test]
fn cargo_noise_is_ignored() {
    assert!(ignore_cargo_err(""));
    assert!(ignore_cargo_err("  \t\n"));
    assert!(ignore_cargo_err("warning: `x` (lib) generated 2 warnings"));
    assert!(ignore_cargo_err("1 warning emitted\n"));
    assert!(ignore_cargo_err("3 warnings emitted"));
    assert!(ignore_cargo_err("warning: ignoring --out-dir flag due to -o flag\n"));
    assert!(!ignore_cargo_err("error[E0425]: cannot find value `x`"));
    assert!(!ignore_cargo_err("   Compiling x v0.1.0"));
}

#[test]
fn coloring_choice() {
    assert_eq!(get_color(Some(Coloring::Always), true, Some("never")), Coloring::Always);
    assert_eq!(get_color(None, true, Some("always")), Coloring::Never);
    assert_eq!(get_color(None, false, Some("always")), Coloring::Always);
    assert_eq!(get_color(None, false, Some("Always")), Coloring::Auto);
    assert_eq!(get_color(None, false, None), Coloring::Auto);
    assert_eq!(Coloring::from_name("never"), Some(Coloring::Never));
    assert_eq!(Coloring::from_name("sometimes"), None);
}

#[test]
fn version_line() {
    assert_eq!(Version { verbose: false }.to_string("1.0.0", Some("0.2.37")), "cargo-expand 1.0.0");
    assert_eq!(
        Version { verbose: true }.to_string("1.0.0", Some("0.2.37")),
        "cargo-expand 1.0.0 + prettyplease 0.2.37"
    );
    assert_eq!(Version { verbose: true }.to_string("1.0.0", None), "cargo-expand 1.0.0");
}

#[test]
fn config_defaults() {
    let c = deserialize(None);
    assert!(c.theme.is_none() && c.color.is_none() && !c.pager && !c.rustfmt);
    let given = Config { theme: Some("x".to_string()), color: None, pager: true, rustfmt: false };
    let c = deserialize(Some(given));
    assert_eq!(c.theme.as_deref(), Some("x"));
    assert!(c.pager);
    let d = Config::default();
    assert!(!d.rustfmt);
}
