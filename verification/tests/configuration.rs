use dotty::config::{Config, ProfileConfig, RemoteConfig};
use dotty::error::{ConfigProblem, SyncError};

fn remote(repo: &str, token: &str) -> RemoteConfig {
    RemoteConfig { github_repo: repo.to_string(), github_token: token.to_string() }
}

#[test]
fn validate_accepts_complete_config() {
    let c = Config::new(remote("https://example.org/r.git", "t0k"), 5, None);
    assert_eq!(c.validate(), Ok(()));
}

#[test]
fn validate_reports_missing_repository() {
    let c = Config::new(remote("", "t0k"), 5, None);
    assert_eq!(c.validate(), Err(SyncError::ConfigInvalid(ConfigProblem::MissingRepository)));
}

#[test]
fn validate_reports_missing_token() {
    let c = Config::new(remote("https://example.org/r.git", ""), 5, None);
    assert_eq!(c.validate(), Err(SyncError::ConfigInvalid(ConfigProblem::MissingToken)));
}

#[test]
fn validate_reports_zero_interval() {
    let c = Config::new(remote("https://example.org/r.git", "t0k"), 0, None);
    assert_eq!(c.validate(), Err(SyncError::ConfigInvalid(ConfigProblem::ZeroInterval)));
}

#[test]
fn validate_reports_repository_before_token_before_interval() {
    let c = Config::new(remote("", ""), 0, None);
    assert_eq!(c.validate(), Err(SyncError::ConfigInvalid(ConfigProblem::MissingRepository)));
    let c = Config::new(remote("r", ""), 0, None);
    assert_eq!(c.validate(), Err(SyncError::ConfigInvalid(ConfigProblem::MissingToken)));
}

#[test]
fn default_config_has_one_empty_default_profile() {
    let c = Config::default_config();
    assert_eq!(c.profiles().len(), 1);
    assert_eq!(c.profiles()[0].name, "default");
    let p = c.profile("default").unwrap();
    assert!(p.files().is_empty());
    assert_eq!(p.ignore_patterns(), &vec![".git".to_string(), ".gitignore".to_string()]);
    assert!(!p.use_symlinks());
    assert_eq!(c.remote().github_repo, "");
    assert_eq!(c.remote().github_token, "");
    assert_eq!(c.sync_interval(), 300);
    assert!(c.profile_detection().is_none());
}

#[test]
fn default_config_is_not_valid_for_a_remote() {
    assert_eq!(
        Config::default_config().validate(),
        Err(SyncError::ConfigInvalid(ConfigProblem::MissingRepository))
    );
}

#[test]
fn insert_file_replaces_the_source_of_a_tracked_path() {
    let mut p = ProfileConfig::new(vec![], false);
    p.insert_file(".vimrc".to_string(), "/home/u/a/.vimrc".to_string());
    p.insert_file(".bashrc".to_string(), "/home/u/a/.bashrc".to_string());
    p.insert_file(".vimrc".to_string(), "/home/u/b/.vimrc".to_string());
    assert_eq!(p.files().len(), 2);
    assert_eq!(p.source_of(".vimrc"), Some("/home/u/b/.vimrc".to_string()));
    assert_eq!(p.source_of(".bashrc"), Some("/home/u/a/.bashrc".to_string()));
    assert_eq!(p.source_of(".zshrc"), None);
}

#[test]
fn remove_file_says_whether_the_path_was_tracked() {
    let mut p = ProfileConfig::new(vec![], true);
    p.insert_file("a".to_string(), "/s/a".to_string());
    p.insert_file("b".to_string(), "/s/b".to_string());
    assert!(!p.remove_file("c"));
    assert_eq!(p.files().len(), 2);
    assert!(p.remove_file("a"));
    assert_eq!(p.files().len(), 1);
    assert_eq!(p.source_of("a"), None);
    assert_eq!(p.source_of("b"), Some("/s/b".to_string()));
    assert!(!p.remove_file("a"));
    assert!(p.use_symlinks());
}

#[test]
fn insert_profile_replaces_a_profile_of_the_same_name() {
    let mut c = Config::new(remote("r", "t"), 1, None);
    c.insert_profile("work".to_string(), ProfileConfig::new(vec!["x".to_string()], false));
    c.insert_profile("home".to_string(), ProfileConfig::new(vec![], true));
    c.insert_profile("work".to_string(), ProfileConfig::new(vec!["y".to_string()], true));
    assert_eq!(c.profiles().len(), 2);
    assert_eq!(c.profile("work").unwrap().ignore_patterns(), &vec!["y".to_string()]);
    assert!(c.profile("work").unwrap().use_symlinks());
    assert!(c.profile("home").is_some());
    assert!(c.profile("server").is_none());
}

#[test]
fn track_and_untrack_touch_one_profile_only() {
    let mut c = Config::new(remote("r", "t"), 1, None);
    c.insert_profile("work".to_string(), ProfileConfig::new(vec![], false));
    c.insert_profile("home".to_string(), ProfileConfig::new(vec![], false));
    assert!(c.track("work", "a".to_string(), "/s/a".to_string()));
    assert!(!c.track("nowhere", "a".to_string(), "/s/a".to_string()));
    assert_eq!(c.profile("work").unwrap().source_of("a"), Some("/s/a".to_string()));
    assert_eq!(c.profile("home").unwrap().source_of("a"), None);
    assert_eq!(c.untrack("home", "a"), Some(false));
    assert_eq!(c.untrack("nowhere", "a"), None);
    assert_eq!(c.untrack("work", "a"), Some(true));
    assert_eq!(c.profile("work").unwrap().source_of("a"), None);
    assert_eq!(c.profiles()[0].name, "work");
    assert_eq!(c.profiles()[1].name, "home");
}
