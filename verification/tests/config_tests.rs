//! Command-line configuration.

use subbers::{Config, Error, RepoConfig};

fn args(list: &[&str]) -> Vec<String> {
    list.iter().map(|s| s.to_string()).collect()
}

#[test]
fn build_without_flags_uses_defaults() {
    let cfg = Config::build(&args(&["prog"])).unwrap();
    assert_eq!(cfg.listen_addr, "0.0.0.0:8080");
    match cfg.repo_config {
        RepoConfig::Sqlite(Some(path)) => assert_eq!(path, "subbers.sql"),
        _ => panic!("expected the default sqlite path"),
    }
}

#[test]
fn build_overrides_listen_addr() {
    let cfg = Config::build(&args(&["prog", "-l", "127.0.0.1:9999"])).unwrap();
    assert_eq!(cfg.listen_addr, "127.0.0.1:9999");
    let cfg = Config::build(&args(&["prog", "--listen-addr", "[::1]:80"])).unwrap();
    assert_eq!(cfg.listen_addr, "[::1]:80");
}

#[test]
fn build_overrides_sqlite_path() {
    let cfg = Config::build(&args(&["prog", "-s", "data.db"])).unwrap();
    match cfg.repo_config {
        RepoConfig::Sqlite(Some(path)) => assert_eq!(path, "data.db"),
        _ => panic!("expected an overridden sqlite path"),
    }
    let cfg = Config::build(&args(&["prog", "--sqlite-filepath", "o.db", "-l", "x:1"])).unwrap();
    assert_eq!(cfg.listen_addr, "x:1");
    match cfg.repo_config {
        RepoConfig::Sqlite(Some(path)) => assert_eq!(path, "o.db"),
        _ => panic!("expected an overridden sqlite path"),
    }
}

#[test]
fn empty_flag_value_keeps_the_default() {
    let cfg = Config::build(&args(&["prog", "-l", "", "-s", ""])).unwrap();
    assert_eq!(cfg.listen_addr, "0.0.0.0:8080");
    match cfg.repo_config {
        RepoConfig::Sqlite(Some(path)) => assert_eq!(path, "subbers.sql"),
        _ => panic!("expected the default sqlite path"),
    }
}

#[test]
fn unknown_argument_is_rejected() {
    let err = Config::build(&args(&["prog", "--what"])).unwrap_err();
    assert!(matches!(err, Error::InvalidInput(_)));
}

#[test]
fn flag_without_value_is_rejected() {
    let err = Config::build(&args(&["prog", "-l"])).unwrap_err();
    assert!(matches!(err, Error::InvalidInput(_)));
    let err = Config::build(&args(&["prog", "-s", "x.db", "-l"])).unwrap_err();
    assert!(matches!(err, Error::InvalidInput(_)));
}
