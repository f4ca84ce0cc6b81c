use grm::config::{Config, RepoConfig};
use grm::platforms::ReleaseInfo;
use grm::repo::{RepoAction, RepoManager};

fn entry(author: &str, repo: &str, path: &str, version: &str) -> RepoConfig {
    RepoConfig {
        author: author.to_string(),
        repo: repo.to_string(),
        path: path.to_string(),
        version: version.to_string(),
    }
}

fn info(version: &str, url: &str) -> ReleaseInfo {
    ReleaseInfo {
        version: version.to_string(),
        download_url: url.to_string(),
        filename: "f".to_string(),
    }
}

#[test]
fn split_repo_names() {
    assert_eq!(
        RepoManager::split_repo("owner/repo"),
        Some(("owner".to_string(), "repo".to_string()))
    );
    assert_eq!(
        RepoManager::split_repo("a/b/c"),
        Some(("a".to_string(), "b/c".to_string()))
    );
    assert_eq!(RepoManager::split_repo("noslash"), None);
    let (a, n) = RepoManager::split_repo("x/y/z").unwrap();
    assert_eq!(format!("{}/{}", a, n), "x/y/z");
}

#[test]
fn find_repository_by_full_name() {
    let mut config = Config::default();
    config.repositories.push(entry("a", "x", "/1", "v1"));
    config.repositories.push(entry("b", "y", "/2", "v1"));
    config.repositories.push(entry("b", "y", "/3", "v1"));
    assert_eq!(RepoManager::find_repository(&config, "b/y"), Some(1));
    assert_eq!(RepoManager::find_repository(&config, "a/x"), Some(0));
    assert_eq!(RepoManager::find_repository(&config, "c/z"), None);
}

#[test]
fn download_path_resolution() {
    let mut config = Config::default();
    assert_eq!(
        RepoManager::resolve_download_path(&config, None),
        Err("No download path provided and no default path configured. Use 'grm config default_download_path <path>'".to_string())
    );
    assert_eq!(
        RepoManager::resolve_download_path(&config, Some("/given".to_string())),
        Ok("/given".to_string())
    );
    config.set_value("default_download_path", "/default").unwrap();
    assert_eq!(
        RepoManager::resolve_download_path(&config, None),
        Ok("/default".to_string())
    );
    assert_eq!(
        RepoManager::resolve_download_path(&config, Some("/given".to_string())),
        Ok("/given".to_string())
    );
}

#[test]
fn add_records_the_release() {
    let mut config = Config::default();
    config.repositories.push(entry("old", "one", "/o", "v0"));
    let mut session = RepoManager::begin_add(
        &config,
        "owner/tool",
        Some("/dl/tool.tar.gz".to_string()),
        Some("linux".to_string()),
    )
    .unwrap();
    match session.next_action() {
        RepoAction::FetchLatest { repo, release_type } => {
            assert_eq!(repo, "owner/tool");
            assert_eq!(release_type, Some("linux".to_string()));
        }
        other => panic!("unexpected {:?}", other),
    }
    session.latest_release(Ok(info("v3", "https://x/tool")));
    match session.next_action() {
        RepoAction::Download { url, destination } => {
            assert_eq!(url, "https://x/tool");
            assert_eq!(destination, "/dl/tool.tar.gz");
        }
        other => panic!("unexpected {:?}", other),
    }
    session.downloaded(&mut config, Ok(()));
    assert!(matches!(session.next_action(), RepoAction::Finished));
    assert_eq!(config.repositories.len(), 2);
    assert_eq!(config.repositories[0].version, "v0");
    let e = &config.repositories[1];
    assert_eq!(e.author, "owner");
    assert_eq!(e.repo, "tool");
    assert_eq!(e.path, "/dl/tool.tar.gz");
    assert_eq!(e.version, "v3");
    assert_eq!(e.full_name(), "owner/tool");

    // The added repository can be upgraded by the name it was added under.
    let session = RepoManager::begin_upgrade(&config, Some("owner/tool")).unwrap();
    match session.next_action(&config) {
        RepoAction::FetchLatest { repo, .. } => assert_eq!(repo, "owner/tool"),
        other => panic!("unexpected {:?}", other),
    }
}

#[test]
fn add_uses_default_path() {
    let mut config = Config::default();
    config.set_value("default_download_path", "/def").unwrap();
    let session = RepoManager::begin_add(&config, "o/r", None, None).unwrap();
    match session.next_action() {
        RepoAction::FetchLatest { repo, release_type } => {
            assert_eq!(repo, "o/r");
            assert_eq!(release_type, None);
        }
        other => panic!("unexpected {:?}", other),
    }
}

#[test]
fn add_refusals() {
    let config = Config::default();
    assert_eq!(
        RepoManager::begin_add(&config, "o/r", None, None).unwrap_err(),
        "No download path provided and no default path configured. Use 'grm config default_download_path <path>'"
    );
    assert_eq!(
        RepoManager::begin_add(&config, "noslash", Some("/p".to_string()), None).unwrap_err(),
        "Invalid repository 'noslash': expected 'owner/repo'"
    );
}

#[test]
fn add_failures_change_nothing() {
    let mut config = Config::default();
    let mut s = RepoManager::begin_add(&config, "o/r", Some("/p".to_string()), None).unwrap();
    s.latest_release(Err("Request failed: boom".to_string()));
    match s.next_action() {
        RepoAction::Failed(e) => {
            assert_eq!(e, "Failed to get latest release for o/r: Request failed: boom")
        }
        other => panic!("unexpected {:?}", other),
    }

    let mut s = RepoManager::begin_add(&config, "o/r", Some("/p".to_string()), None).unwrap();
    s.latest_release(Ok(info("v1", "u")));
    s.downloaded(&mut config, Err("disk full".to_string()));
    match s.next_action() {
        RepoAction::Failed(e) => assert_eq!(e, "Failed to download release for o/r: disk full"),
        other => panic!("unexpected {:?}", other),
    }
    assert!(config.repositories.is_empty());
}

/// Drives an upgrade session against a platform that reports `latest` for every repository
/// and whose downloads succeed; returns the downloads that were asked for.
fn run_upgrade(config: &mut Config, repo: Option<&str>, latest: &dyn Fn(&str) -> ReleaseInfo) -> Result<Vec<(String, String)>, String> {
    let mut session = RepoManager::begin_upgrade(config, repo)?;
    let mut downloads = Vec::new();
    loop {
        match session.next_action(config) {
            RepoAction::FetchLatest { repo, release_type } => {
                assert_eq!(release_type, None);
                session.latest_release(config, Ok(latest(&repo)));
            }
            RepoAction::Download { url, destination } => {
                downloads.push((url, destination));
                session.downloaded(config, Ok(()));
            }
            RepoAction::Finished => return Ok(downloads),
            RepoAction::Failed(e) => return Err(e),
        }
    }
}

fn sample() -> Config {
    let mut config = Config::default();
    config.repositories.push(entry("a", "one", "/1", "v1"));
    config.repositories.push(entry("b", "two", "/2", "v5"));
    config.repositories.push(entry("c", "three", "/3", "v1"));
    config
}

fn platform(repo: &str) -> ReleaseInfo {
    let version = if repo == "b/two" { "v5" } else { "v2" };
    info(version, &format!("https://dl/{}", repo))
}

#[test]
fn upgrade_all_reaches_latest() {
    let mut config = sample();
    let downloads = run_upgrade(&mut config, None, &platform).unwrap();
    assert_eq!(
        downloads,
        vec![
            ("https://dl/a/one".to_string(), "/1".to_string()),
            ("https://dl/c/three".to_string(), "/3".to_string())
        ]
    );
    let versions: Vec<_> = config.repositories.iter().map(|r| r.version.clone()).collect();
    assert_eq!(versions, vec!["v2", "v5", "v2"]);

    // A second upgrade against the same platform downloads nothing and changes nothing.
    let downloads = run_upgrade(&mut config, None, &platform).unwrap();
    assert!(downloads.is_empty());
    let versions: Vec<_> = config.repositories.iter().map(|r| r.version.clone()).collect();
    assert_eq!(versions, vec!["v2", "v5", "v2"]);
}

#[test]
fn upgrade_one_touches_only_it() {
    let mut config = sample();
    let downloads = run_upgrade(&mut config, Some("c/three"), &platform).unwrap();
    assert_eq!(downloads, vec![("https://dl/c/three".to_string(), "/3".to_string())]);
    let versions: Vec<_> = config.repositories.iter().map(|r| r.version.clone()).collect();
    assert_eq!(versions, vec!["v1", "v5", "v2"]);
}

#[test]
fn upgrade_unknown_repository_is_refused() {
    let config = sample();
    assert_eq!(
        RepoManager::begin_upgrade(&config, Some("z/zz")).unwrap_err(),
        "Repository z/zz not found in config"
    );
}

#[test]
fn upgrade_of_nothing_finishes_at_once() {
    let config = Config::default();
    let session = RepoManager::begin_upgrade(&config, None).unwrap();
    assert!(matches!(session.next_action(&config), RepoAction::Finished));
}

#[test]
fn upgrade_stops_at_first_failure() {
    let mut config = sample();
    let mut session = RepoManager::begin_upgrade(&config, None).unwrap();
    // First repository: a new version whose download fails.
    session.latest_release(&config, Ok(info("v9", "u")));
    session.downloaded(&mut config, Err("timeout".to_string()));
    match session.next_action(&config) {
        RepoAction::Failed(e) => assert_eq!(e, "Failed to download update for a/one: timeout"),
        other => panic!("unexpected {:?}", other),
    }
    assert_eq!(config.repositories[0].version, "v1");

    let mut session = RepoManager::begin_upgrade(&config, Some("b/two")).unwrap();
    session.latest_release(&config, Err("GitHub API returned error: 404 Not Found".to_string()));
    match session.next_action(&config) {
        RepoAction::Failed(e) => assert_eq!(
            e,
            "Failed to get latest release for b/two: GitHub API returned error: 404 Not Found"
        ),
        other => panic!("unexpected {:?}", other),
    }
}
