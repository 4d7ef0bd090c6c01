use cargo_expand::assets;
use cargo_expand::etcetera::app_strategy::{self, AppStrategy, AppStrategyArgs};
use cargo_expand::etcetera::base_strategy::{self, BaseStrategy, XdgVars};
use cargo_expand::path::join_path;
use cargo_expand::HomeDirError;

fn args(tld: &str, author: &str, app: &str) -> AppStrategyArgs {
    AppStrategyArgs {
        top_level_domain: tld.to_string(),
        author: author.to_string(),
        app_name: app.to_string(),
    }
}

fn xdg(vars: XdgVars) -> base_strategy::Xdg {
    base_strategy::Xdg { home_dir: "/home/u".to_string(), vars }
}

#[test]
fn bundle_id_joins_non_empty_parts() {
    assert_eq!(args("org", "Acme Corp", "Frobnicator Plus").bundle_id(), "org.acme-corp.Frobnicator-Plus");
    assert_eq!(args("", "Acme", "App").bundle_id(), "acme.App");
    assert_eq!(args("com", "", "").bundle_id(), "com");
    assert_eq!(args("", "", "").bundle_id(), "");
}

#[test]
fn unixy_name_is_lower_and_dashed() {
    assert_eq!(args("org", "Acme", "Frobnicator Plus").unixy_name(), "frobnicator-plus");
    assert_eq!(args("org", "Acme", "ÀB C").unixy_name(), "àb-c");
}

#[test]
fn join_follows_unix_rules() {
    assert_eq!(join_path("/home/u", ".cache/"), "/home/u/.cache/");
    assert_eq!(join_path("/home/u/", "x"), "/home/u/x");
    assert_eq!(join_path("", "x"), "x");
    assert_eq!(join_path("/home/u", "/abs"), "/abs");
}

#[test]
fn xdg_defaults_under_home() {
    let x = xdg(XdgVars::default());
    assert_eq!(x.home_dir(), "/home/u");
    assert_eq!(x.config_dir(), "/home/u/.config/");
    assert_eq!(x.data_dir(), "/home/u/.local/share/");
    assert_eq!(x.cache_dir(), "/home/u/.cache/");
    assert_eq!(x.state_dir(), Some("/home/u/.local/state/".to_string()));
    assert_eq!(x.runtime_dir(), None);
}

#[test]
fn xdg_takes_absolute_variables_only() {
    let x = xdg(XdgVars {
        config_home: Some("/etc/cfg".to_string()),
        data_home: Some("relative/data".to_string()),
        cache_home: Some("/var/cache".to_string()),
        state_home: None,
        runtime_dir: Some("/run/user/1".to_string()),
    });
    assert_eq!(x.config_dir(), "/etc/cfg");
    assert_eq!(x.data_dir(), "/home/u/.local/share/");
    assert_eq!(x.cache_dir(), "/var/cache");
    assert_eq!(x.runtime_dir(), Some("/run/user/1".to_string()));
    assert_eq!(x.env_var_or_default(&Some("rel".to_string()), "d"), "/home/u/d");
}

#[test]
fn windows_base_folders() {
    let w = base_strategy::Windows {
        home_dir: "C:/Users/u".to_string(),
        app_data: Some(String::new()),
        local_app_data: Some("C:/Local".to_string()),
    };
    assert_eq!(w.config_dir(), "C:/Users/u/AppData/Roaming");
    assert_eq!(w.data_dir(), "C:/Users/u/AppData/Roaming");
    assert_eq!(w.cache_dir(), "C:/Local");
    assert_eq!(w.state_dir(), None);
    assert_eq!(w.runtime_dir(), None);
}

#[test]
fn apple_base_folders() {
    let a = base_strategy::Apple { home_dir: "/Users/u".to_string() };
    assert_eq!(a.config_dir(), "/Users/u/Library/Preferences/");
    assert_eq!(a.data_dir(), "/Users/u/Library/Application Support/");
    assert_eq!(a.cache_dir(), "/Users/u/Library/Caches/");
    assert_eq!(a.state_dir(), None);
}

#[test]
fn app_strategies() {
    let a = app_strategy::Apple {
        base_strategy: base_strategy::Apple { home_dir: "/Users/u".to_string() },
        bundle_id: "org.acme.App".to_string(),
    };
    assert_eq!(a.cache_dir(), "/Users/u/Library/Caches/org.acme.App");
    assert_eq!(a.home_dir(), "/Users/u");

    let u = app_strategy::Unix { home_dir: "/home/u".to_string(), unixy_name: ".app".to_string() };
    assert_eq!(u.config_dir(), "/home/u/.app");
    assert_eq!(u.data_dir(), "/home/u/.app/data/");
    assert_eq!(u.cache_dir(), "/home/u/.app/cache/");
    assert_eq!(u.state_dir(), Some("/home/u/.app/state/".to_string()));
    assert_eq!(u.runtime_dir(), Some("/home/u/.app/runtime/".to_string()));

    let w = app_strategy::Windows {
        base_strategy: base_strategy::Windows {
            home_dir: "C:/Users/u".to_string(),
            app_data: None,
            local_app_data: None,
        },
        author_app_name_path: "Acme/App".to_string(),
    };
    assert_eq!(w.config_dir(), "C:/Users/u/AppData/Roaming/Acme/App/config");
    assert_eq!(w.cache_dir(), "C:/Users/u/AppData/Local/Acme/App/cache");

    let x = app_strategy::Xdg { base_strategy: xdg(XdgVars::default()), unixy_name: "app".to_string() };
    assert_eq!(x.config_dir(), "/home/u/.config/app");
    assert_eq!(x.state_dir(), Some("/home/u/.local/state/app".to_string()));
    assert_eq!(x.runtime_dir(), None);
}

#[test]
fn strategies_from_args() {
    if let Ok(u) = app_strategy::Unix::new(args("org", "Acme", "My App")) {
        assert_eq!(u.unixy_name, ".my-app");
    }
    if let Ok(w) = app_strategy::Windows::new(args("org", "Acme", "App"), None, None) {
        assert_eq!(w.author_app_name_path, "Acme/App");
    }
    if let Ok(a) = app_strategy::Apple::new(args("org", "Acme", "App")) {
        assert_eq!(a.bundle_id, "org.acme.App");
    }
    if let Ok(x) = app_strategy::Xdg::new(args("org", "Acme", "App"), XdgVars::default()) {
        assert_eq!(x.unixy_name, "app");
    }
}

#[test]
fn home_dir_error_message() {
    assert_eq!(HomeDirError.to_string(), "could not locate home directory");
}

#[test]
fn asset_cache_dirs() {
    assert_eq!(assets::xdg::cache_dir("/home/u", &None), "/home/u/.cache/");
    assert_eq!(assets::xdg::cache_dir("/home/u", &Some("/c".to_string())), "/c");
    assert_eq!(assets::xdg::cache_dir("/home/u", &Some("c".to_string())), "/home/u/.cache/");
    assert_eq!(assets::windows::cache_dir("C:/u", &None), "C:/u/AppData/Local");
    assert_eq!(assets::windows::cache_dir("C:/u", &Some("D:/L".to_string())), "D:/L");
    assert_eq!(assets::cache_dir(Some("/bat".to_string()), false, &None), Ok("/bat".to_string()));
}

#[test]
fn paths_inside_app_dirs() {
    let u = app_strategy::Unix { home_dir: "/home/u".to_string(), unixy_name: ".app".to_string() };
    assert_eq!(u.in_config_dir("config.toml"), "/home/u/.app/config.toml");
    assert_eq!(u.in_data_dir("d"), "/home/u/.app/data/d");
    assert_eq!(u.in_cache_dir("c"), "/home/u/.app/cache/c");
    assert_eq!(u.in_state_dir("s"), Some("/home/u/.app/state/s".to_string()));
    assert_eq!(u.in_runtime_dir("r"), Some("/home/u/.app/runtime/r".to_string()));
    let a = app_strategy::Apple {
        base_strategy: base_strategy::Apple { home_dir: "/Users/u".to_string() },
        bundle_id: "b".to_string(),
    };
    assert_eq!(a.in_state_dir("s"), None);
}
