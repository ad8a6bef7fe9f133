use giggles::config::{
    config_file_path, credentials_for, default_server, load_config_from, merge_credentials,
    resolve_server, ConfigError, FileConfig, StoredConfig,
};

fn file_with(pairs: &[(&str, &str)]) -> FileConfig {
    let mut f = FileConfig::new();
    for (s, k) in pairs {
        f.insert(s, k);
    }
    f
}

#[test]
fn insert_then_get_returns_key() {
    let f = file_with(&[("https://gggl.es", "k1"), ("http://localhost:3000", "k2")]);
    assert_eq!(f.get("https://gggl.es"), Some("k1".to_string()));
    assert_eq!(f.get("http://localhost:3000"), Some("k2".to_string()));
    assert_eq!(f.get("https://other"), None);
    assert_eq!(f.len(), 2);
}

#[test]
fn insert_replaces_existing_key() {
    let f = file_with(&[("https://gggl.es", "old"), ("https://gggl.es", "new")]);
    assert_eq!(f.get("https://gggl.es"), Some("new".to_string()));
    assert_eq!(f.len(), 1);
}

#[test]
fn credentials_lists_each_server_once() {
    let f = file_with(&[("a", "1"), ("b", "2"), ("a", "3")]);
    let mut c = f.credentials();
    c.sort();
    assert_eq!(c, vec![("a".to_string(), "3".to_string()), ("b".to_string(), "2".to_string())]);
}

#[test]
fn default_server_depends_on_build() {
    assert_eq!(default_server(true), "http://localhost:3000");
    assert_eq!(default_server(false), "https://gggl.es");
}

#[test]
fn resolve_server_prefers_environment() {
    assert_eq!(resolve_server(Some("https://staging".to_string()), false), "https://staging");
    assert_eq!(resolve_server(None, false), "https://gggl.es");
    assert_eq!(resolve_server(None, true), "http://localhost:3000");
}

#[test]
fn config_path_uses_xdg_config_home() {
    assert_eq!(
        config_file_path(Some("/x/cfg".to_string()), Some("/home/u".to_string())),
        "/x/cfg/giggles/config.toml"
    );
    assert_eq!(config_file_path(Some("/x/cfg/".to_string()), None), "/x/cfg/giggles/config.toml");
    assert_eq!(config_file_path(Some(String::new()), None), "giggles/config.toml");
}

#[test]
fn config_path_falls_back_to_home() {
    assert_eq!(config_file_path(None, Some("/home/u".to_string())), "/home/u/.config/giggles/config.toml");
    assert_eq!(config_file_path(None, None), "./.config/giggles/config.toml");
}

#[test]
fn config_path_matches_std_path_join() {
    let base = std::path::PathBuf::from("/home/u").join(".config").join("giggles").join("config.toml");
    assert_eq!(config_file_path(None, Some("/home/u".to_string())), base.to_str().unwrap());
}

#[test]
fn load_missing_file_is_not_logged_in() {
    let r = load_config_from("https://gggl.es".to_string(), "/p", StoredConfig::Missing);
    match r {
        Err(e) => {
            assert!(matches!(e, ConfigError::NotLoggedIn));
            assert_eq!(e.message(), "Not logged in. Run `giggles login`.");
        }
        Ok(_) => panic!("expected an error"),
    }
}

#[test]
fn load_unreadable_file_names_path() {
    match load_config_from("s".to_string(), "/p/config.toml", StoredConfig::Unreadable) {
        Err(e) => assert_eq!(e.message(), "Failed to read config: /p/config.toml"),
        Ok(_) => panic!("expected an error"),
    }
}

#[test]
fn load_malformed_file_fails_to_parse() {
    match load_config_from("s".to_string(), "/p", StoredConfig::Malformed) {
        Err(e) => assert_eq!(e.message(), "Failed to parse config"),
        Ok(_) => panic!("expected an error"),
    }
}

#[test]
fn load_without_credentials_names_server() {
    let f = file_with(&[("a", "1")]);
    match load_config_from("https://gggl.es".to_string(), "/p", StoredConfig::Parsed(f)) {
        Err(e) => assert_eq!(
            e.message(),
            "No credentials for https://gggl.es. Run `giggles login --server https://gggl.es`."
        ),
        Ok(_) => panic!("expected an error"),
    }
}

#[test]
fn load_with_credentials_gives_config() {
    let f = file_with(&[("https://gggl.es", "key")]);
    let c = load_config_from("https://gggl.es".to_string(), "/p", StoredConfig::Parsed(f)).ok().unwrap();
    assert_eq!(c.server, "https://gggl.es");
    assert_eq!(c.api_key, "key");
}

#[test]
fn credentials_for_looks_up_server() {
    let f = file_with(&[("a", "1")]);
    assert_eq!(credentials_for(&f, "a".to_string()).ok().unwrap().api_key, "1");
    assert!(matches!(credentials_for(&f, "b".to_string()), Err(ConfigError::NoCredentials(s)) if s == "b"));
}

#[test]
fn save_then_load_gives_saved_key() {
    let existing = file_with(&[("other", "o"), ("srv", "old")]);
    let merged = merge_credentials(Some(existing), "srv", "new");
    let c = load_config_from("srv".to_string(), "/p", StoredConfig::Parsed(merged)).ok().unwrap();
    assert_eq!(c.api_key, "new");
}

#[test]
fn save_keeps_other_servers() {
    let existing = file_with(&[("other", "o")]);
    let merged = merge_credentials(Some(existing), "srv", "k");
    assert_eq!(merged.get("other"), Some("o".to_string()));
    assert_eq!(merged.get("srv"), Some("k".to_string()));
    let fresh = merge_credentials(None, "srv", "k");
    assert_eq!(fresh.len(), 1);
}

#[test]
fn save_errors_have_messages() {
    assert_eq!(ConfigError::CreateDirFailed.message(), "Failed to create config directory");
    assert_eq!(ConfigError::WriteFailed("/p".to_string()).message(), "Failed to write config: /p");
}
