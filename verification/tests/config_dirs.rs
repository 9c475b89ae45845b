use composer::config::{
    AuditAbandoned, BinaryCompatibility, Config, ConfigError, Confirmation, DiscardChanges,
    PackageSetting, PlatformCheck, PreferredInstallMethod,
};
use composer::dirs::{Directories, DirectoryError, EnvSnapshot, OsKind};
use composer::paths::{path_join, replace_json_with_lock};

fn unix_env() -> EnvSnapshot {
    EnvSnapshot {
        os: OsKind::Unix,
        cwd: Some("/cwd".to_string()),
        composer: None,
        xdg_config_home: None,
        xdg_data_home: None,
        xdg_cache_home: None,
        home: None,
        local_app_data: None,
        app_data: None,
    }
}

#[test]
fn test_unix_home_from_xdg_config() {
    let mut env = unix_env();
    env.xdg_config_home = Some("/x".to_string());
    let d = Directories::try_get_default_directories(&env).unwrap();
    assert_eq!(d.home_dir, "/x/composer");
    assert_eq!(d.data_dir, "/x/composer");
    assert_eq!(d.cache_dir, "/x/composer/cache");
    assert_eq!(d.archive_dir, "/cwd");
}

#[test]
fn test_unix_home_falls_back_to_home_variable() {
    let mut env = unix_env();
    env.home = Some("/h".to_string());
    let d = Directories::try_get_default_directories(&env).unwrap();
    assert_eq!(d.home_dir, "/h/.composer");
    assert_eq!(d.data_dir, "/h/.composer");
    assert_eq!(d.cache_dir, "/h/.composer/cache");
}

#[test]
fn test_unix_without_any_home_fails() {
    let env = unix_env();
    let r = Directories::try_get_default_directories(&env);
    match r {
        Err(DirectoryError::CannotDetermineDirectory(w)) => assert_eq!(w, "home"),
        other => panic!("expected a home error, got {:?}", other),
    }
}

#[test]
fn test_unix_xdg_data_and_cache_override() {
    let mut env = unix_env();
    env.home = Some("/h".to_string());
    env.xdg_data_home = Some("/d".to_string());
    env.xdg_cache_home = Some("/c".to_string());
    let d = Directories::try_get_default_directories(&env).unwrap();
    assert_eq!(d.data_dir, "/d/composer");
    assert_eq!(d.cache_dir, "/c/composer");
}

#[test]
fn test_macos_directories() {
    let mut env = unix_env();
    env.os = OsKind::MacOs;
    env.home = Some("/Users/a".to_string());
    let d = Directories::try_get_default_directories(&env).unwrap();
    assert_eq!(d.home_dir, "/Users/a/.composer");
    assert_eq!(d.data_dir, "/Users/a/.composer");
    assert_eq!(d.cache_dir, "/Users/a/Library/Caches/composer");
}

#[test]
fn test_windows_directories() {
    let mut env = unix_env();
    env.os = OsKind::Windows;
    env.local_app_data = Some("C:/Users/a/AppData/Local".to_string());
    env.app_data = Some("C:/Users/a/AppData/Roaming".to_string());
    let d = Directories::try_get_default_directories(&env).unwrap();
    assert_eq!(d.cache_dir, "C:/Users/a/AppData/Local/Composer");
    assert_eq!(d.home_dir, "C:/Users/a/AppData/Roaming");
    assert_eq!(d.data_dir, "C:/Users/a/AppData/Roaming/Composer");
}

#[test]
fn test_windows_without_local_app_data_fails() {
    let mut env = unix_env();
    env.os = OsKind::Windows;
    env.app_data = Some("C:/Users/a/AppData/Roaming".to_string());
    let r = Directories::try_get_default_directories(&env);
    match r {
        Err(DirectoryError::CannotDetermineDirectory(w)) => assert_eq!(w, "local app data"),
        other => panic!("expected a local app data error, got {:?}", other),
    }
}

#[test]
fn test_config_with_manifest_override() {
    let mut env = unix_env();
    env.home = Some("/h".to_string());
    env.composer = Some("custom.json".to_string());
    let c = Config::build(&env).unwrap();
    assert_eq!(c.composer_json, "/cwd/custom.json");
    assert_eq!(c.composer_lock, "/cwd/custom.lock");
}

#[test]
fn test_config_default_manifest_paths() {
    let mut env = unix_env();
    env.home = Some("/h".to_string());
    let c = Config::build(&env).unwrap();
    assert_eq!(c.composer_json, "/cwd/composer.json");
    assert_eq!(c.composer_lock, "/cwd/composer.lock");
    assert_eq!(c.vendor_dir, "/cwd/vendor");
    assert_eq!(c.bin_dir, "/cwd/vendor/bin");
    assert_eq!(c.archive_dir, "/cwd");
}

#[test]
fn test_config_built_in_defaults() {
    let mut env = unix_env();
    env.home = Some("/h".to_string());
    let c = Config::build(&env).unwrap();
    assert_eq!(c.cache_files_maxsize, 300);
    assert_eq!(c.cache_files_ttl, 15_552_000);
    assert_eq!(c.process_timeout, 300);
    assert_eq!(c.archive_format, "tar");
    assert_eq!(c.github_domains, vec!["github.com".to_string()]);
    assert_eq!(
        c.github_protocols,
        vec!["https".to_string(), "ssh".to_string(), "git".to_string()]
    );
    assert_eq!(c.gitlab_domains, vec!["gitlab.com".to_string()]);
    assert!(c.secure_svn_domains.is_empty());
    assert_eq!(c.audit.abandoned, AuditAbandoned::Fail);
    assert!(c.audit.ignore.is_none());
    assert_eq!(c.bin_compat, BinaryCompatibility::Auto);
    assert_eq!(c.discard_changes, DiscardChanges::Never);
    assert_eq!(c.platform_check, PlatformCheck::PhpOnly);
    assert_eq!(c.store_auths, Confirmation::Prompt);
    assert_eq!(c.use_parent_dir, Confirmation::Prompt);
    assert!(matches!(
        c.preferred_install,
        PackageSetting::Global(PreferredInstallMethod::Dist)
    ));
    assert!(matches!(&c.allow_plugins, PackageSetting::Selective(m) if m.is_empty()));
    assert_eq!(c.cache_files_dir, format!("{}/files", c.cache_dir));
    assert_eq!(c.cache_repo_dir, format!("{}/repo", c.cache_dir));
    assert_eq!(c.cache_vcs_dir, format!("{}/vcs", c.cache_dir));
    assert!(c.secure_http);
    assert!(c.lock);
    assert!(!c.allow_superuser);
}

#[test]
fn test_config_without_cwd_fails() {
    let mut env = unix_env();
    env.home = Some("/h".to_string());
    env.cwd = None;
    let r = Config::build(&env);
    assert!(matches!(r, Err(ConfigError::IoError(_))));
}

#[test]
fn test_config_without_home_fails() {
    let env = unix_env();
    let r = Config::build(&env);
    match r {
        Err(ConfigError::CannotDetermineConfigDirectory(w)) => assert_eq!(w, "home"),
        other => panic!("expected a config directory error, got {:?}", other),
    }
}

#[test]
fn test_selective_empty_falls_back_to_default() {
    let s: PackageSetting<bool> = PackageSetting::Selective(vec![]);
    assert_eq!(*s.effective_value("any/package", &true), true);
    assert_eq!(*s.effective_value("other/package", &false), false);
}

#[test]
fn test_selective_entry_overrides_and_global_wins() {
    let s: PackageSetting<bool> =
        PackageSetting::Selective(vec![("acme/x".to_string(), true)]);
    assert_eq!(*s.effective_value("acme/x", &false), true);
    assert_eq!(*s.effective_value("acme/y", &false), false);
    let g: PackageSetting<bool> = PackageSetting::Global(true);
    assert_eq!(*g.effective_value("whatever", &false), true);
}

#[test]
fn test_package_setting_default_is_selective_empty() {
    let s: PackageSetting<u32> = Default::default();
    assert!(matches!(&s, PackageSetting::Selective(m) if m.is_empty()));
}

#[test]
fn test_path_join_rules() {
    assert_eq!(path_join("/a", "b"), "/a/b");
    assert_eq!(path_join("/a/", "b"), "/a/b");
    assert_eq!(path_join("", "b"), "b");
    assert_eq!(path_join("/a", "/abs"), "/abs");
}

#[test]
fn test_lock_name_substitution_is_textual() {
    assert_eq!(replace_json_with_lock("composer.json"), "composer.lock");
    assert_eq!(replace_json_with_lock("custom.json"), "custom.lock");
    assert_eq!(
        replace_json_with_lock("myjson.config.json"),
        "mylock.config.lock"
    );
    assert_eq!(replace_json_with_lock("plain.txt"), "plain.txt");
    assert_eq!(replace_json_with_lock("jso"), "jso");
}
