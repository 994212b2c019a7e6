use orm::io::{find_line, list_file_names};
use orm::logging::{setup, Backend, Level, Setting, Settings};

fn lines(list: &[&str]) -> Vec<String> {
    list.iter().map(|p| p.to_string()).collect()
}

fn setting(built_in: Option<&str>, environment: Option<&str>) -> Setting {
    Setting { built_in: built_in.map(String::from), environment: environment.map(String::from) }
}

fn unset() -> Settings {
    Settings {
        api_url: setting(None, None),
        api_key: setting(None, None),
        tags: setting(None, None),
        service: setting(None, None),
        source: setting(None, None),
        hostname: None,
        rust_log: false,
        debug_build: false,
    }
}

#[test]
fn find_line_returns_the_first_accepted_line() {
    let all = lines(&["1.0.0", "2.0.0", "2.1.0", "2.0.0-rc"]);
    assert_eq!(find_line(&all, |l| l.starts_with("2.")), Some("2.0.0".to_string()));
    assert_eq!(find_line(&all, |l| l.ends_with("rc")), Some("2.0.0-rc".to_string()));
}

#[test]
fn find_line_without_accepted_line_is_none() {
    let all = lines(&["1.0.0", "2.0.0"]);
    assert_eq!(find_line(&all, |l| l.is_empty()), None);
    assert_eq!(find_line(&Vec::new(), |_| true), None);
}

#[test]
fn list_file_names_keeps_accepted_names_in_order() {
    let all = lines(&["b.tar.gz", "a", "c.tar.gz", "b.tar.gz"]);
    assert_eq!(list_file_names(&all, |n| n.ends_with(".tar.gz")), vec!["b.tar.gz", "c.tar.gz", "b.tar.gz"]);
    assert!(list_file_names(&all, |_| false).is_empty());
    assert_eq!(list_file_names(&all, |_| true), all);
}

#[test]
fn logging_is_remote_when_url_and_key_are_set() {
    let settings = Settings {
        api_url: setting(Some("https://logs.example"), Some("https://other.example")),
        api_key: setting(None, Some("KEY")),
        tags: setting(None, Some("env:prod")),
        service: setting(Some("agent"), None),
        source: setting(None, None),
        hostname: Some("edge-7".to_string()),
        rust_log: true,
        debug_build: true,
    };
    match setup(settings) {
        Backend::Remote(r) => {
            assert_eq!(r.url, "https://logs.example");
            assert_eq!(r.api_key, "KEY");
            assert_eq!(r.tags.as_deref(), Some("env:prod"));
            assert_eq!(r.service.as_deref(), Some("agent"));
            assert_eq!(r.source, "orm");
            assert_eq!(r.hostname.as_deref(), Some("edge-7"));
        }
        other => panic!("{:?}", other),
    }
}

#[test]
fn logging_source_comes_from_build_time_first() {
    let settings = Settings {
        api_url: setting(None, Some("u")),
        api_key: setting(Some("k"), None),
        source: setting(Some("built"), Some("env")),
        ..unset()
    };
    match setup(settings) {
        Backend::Remote(r) => {
            assert_eq!(r.source, "built");
            assert_eq!(r.tags, None);
            assert_eq!(r.hostname, None);
        }
        other => panic!("{:?}", other),
    }
    let settings = Settings { api_url: setting(None, Some("u")), api_key: setting(Some("k"), None), source: setting(None, Some("env")), ..unset() };
    assert!(matches!(setup(settings), Backend::Remote(r) if r.source == "env"));
}

#[test]
fn logging_is_local_without_url_or_key() {
    let only_url = Settings { api_url: setting(Some("u"), None), ..unset() };
    assert!(matches!(setup(only_url), Backend::Local(Level::Info)));
    let only_key = Settings { api_key: setting(None, Some("k")), debug_build: true, ..unset() };
    assert!(matches!(setup(only_key), Backend::Local(Level::Debug)));
    let by_environment = Settings { rust_log: true, debug_build: true, ..unset() };
    assert!(matches!(setup(by_environment), Backend::Environment));
    assert!(matches!(setup(unset()), Backend::Local(Level::Info)));
}
