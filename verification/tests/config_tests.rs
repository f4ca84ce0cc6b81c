use grm::config::{Config, RepoConfig};

fn entry(author: &str, repo: &str, path: &str, version: &str) -> RepoConfig {
    RepoConfig {
        author: author.to_string(),
        repo: repo.to_string(),
        path: path.to_string(),
        version: version.to_string(),
    }
}

#[test]
fn test_config_value_management() {
    let mut config = Config::default();

    // Test set
    assert!(config
        .set_value("default_download_path", "/tmp/downloads")
        .is_ok());
    assert_eq!(
        config.get_value("default_download_path"),
        Some("/tmp/downloads".to_string())
    );

    // Test unknown key
    assert!(config.set_value("unknown", "val").is_err());
    assert_eq!(config.get_value("unknown"), None);

    // Test unset
    assert!(config.unset_value("default_download_path").is_ok());
    assert_eq!(config.get_value("default_download_path"), None);

    // Test unset unknown
    assert!(config.unset_value("unknown").is_err());
}

#[test]
fn test_config_list_values() {
    let mut config = Config::default();
    config
        .set_value("default_download_path", "/tmp/downloads")
        .unwrap();

    let values = config.list_values();
    assert_eq!(values.len(), 1);
    assert_eq!(
        values[0],
        (
            "default_download_path".to_string(),
            "/tmp/downloads".to_string()
        )
    );
}

#[test]
fn test_handle_config_command_updates_state() {
    let mut config = Config::default();

    // Test set via handle
    config.handle_config_command(
        Some("default_download_path".to_string()),
        Some("/tmp/downloads".to_string()),
        false,
        false,
    );
    assert_eq!(
        config.get_value("default_download_path"),
        Some("/tmp/downloads".to_string())
    );

    // Test unset via handle
    config.handle_config_command(Some("default_download_path".to_string()), None, false, true);
    assert_eq!(config.get_value("default_download_path"), None);
}

#[test]
fn unknown_key_errors_name_the_key_and_change_nothing() {
    let mut config = Config::default();
    config.set_value("default_download_path", "/d").unwrap();
    assert_eq!(
        config.set_value("colour", "blue"),
        Err("Unknown config key: colour".to_string())
    );
    assert_eq!(
        config.unset_value("colour"),
        Err("Unknown config key: colour".to_string())
    );
    assert_eq!(config.get_value("default_download_path"), Some("/d".to_string()));
}

#[test]
fn last_set_wins_and_repositories_stay() {
    let mut config = Config::default();
    config.repositories.push(entry("a", "b", "/p", "v1"));
    config.set_value("default_download_path", "/first").unwrap();
    config.set_value("default_download_path", "/second").unwrap();
    assert_eq!(config.get_value("default_download_path"), Some("/second".to_string()));
    assert_eq!(config.repositories.len(), 1);
    assert_eq!(config.repositories[0].version, "v1");
}

#[test]
fn list_is_empty_without_settings() {
    let config = Config::default();
    assert!(config.list_values().is_empty());
    assert_eq!(config.get_value("default_download_path"), None);
}

#[test]
fn config_command_replies() {
    let mut config = Config::default();

    let r = config.handle_config_command(Some("default_download_path".to_string()), None, false, false);
    assert_eq!(r.lines, vec!["Key default_download_path not set".to_string()]);
    assert!(!r.save);

    let r = config.handle_config_command(
        Some("default_download_path".to_string()),
        Some("/x".to_string()),
        false,
        false,
    );
    assert_eq!(r.lines, vec!["Set default_download_path = /x".to_string()]);
    assert!(r.save);

    let r = config.handle_config_command(Some("default_download_path".to_string()), None, false, false);
    assert_eq!(r.lines, vec!["/x".to_string()]);
    assert!(!r.save);

    let r = config.handle_config_command(None, None, true, false);
    assert_eq!(r.lines, vec!["default_download_path = /x".to_string()]);
    assert!(!r.save);

    let r = config.handle_config_command(Some("nope".to_string()), Some("1".to_string()), false, false);
    assert_eq!(r.lines, vec!["Error: Unknown config key: nope".to_string()]);
    assert!(!r.save);

    let r = config.handle_config_command(Some("nope".to_string()), None, false, true);
    assert_eq!(r.lines, vec!["Error: Unknown config key: nope".to_string()]);
    assert!(!r.save);

    let r = config.handle_config_command(None, None, false, true);
    assert_eq!(r.lines, vec!["Error: Key required for unset".to_string()]);
    assert!(!r.save);

    let r = config.handle_config_command(None, Some("v".to_string()), false, false);
    assert_eq!(r.lines, vec!["Error: Config key required".to_string()]);
    assert!(!r.save);

    let r = config.handle_config_command(Some("default_download_path".to_string()), None, false, true);
    assert_eq!(r.lines, vec!["Unset default_download_path successfully".to_string()]);
    assert!(r.save);
    assert_eq!(config.get_value("default_download_path"), None);

    let r = config.handle_config_command(None, None, true, false);
    assert!(r.lines.is_empty());
}

#[test]
fn list_wins_over_unset() {
    let mut config = Config::default();
    config.set_value("default_download_path", "/keep").unwrap();
    let r = config.handle_config_command(Some("default_download_path".to_string()), None, true, true);
    assert_eq!(r.lines, vec!["default_download_path = /keep".to_string()]);
    assert!(!r.save);
    assert_eq!(config.get_value("default_download_path"), Some("/keep".to_string()));
}

#[test]
fn repository_table_layout() {
    let mut config = Config::default();
    assert_eq!(config.repository_table(), vec!["No repositories managed by grm.".to_string()]);

    config.repositories.push(entry("owner", "tool", "/opt/tool", "v1.2.0"));
    config.repositories.push(entry("someone", "a-very-long-repository-name", "/p", "2024.01.01-rc1"));
    let lines = config.repository_table();
    assert_eq!(lines.len(), 4);
    assert_eq!(lines[0], format!("{:<20} {:<20} {:<10}", "Repository", "Path", "Version"));
    assert_eq!(lines[1], "-".repeat(50));
    assert_eq!(lines[2], format!("{:<20} {:<20} {:<10}", "owner/tool", "/opt/tool", "v1.2.0"));
    assert_eq!(
        lines[3],
        format!(
            "{:<20} {:<20} {:<10}",
            "someone/a-very-long-repository-name", "/p", "2024.01.01-rc1"
        )
    );
    assert_eq!(lines[2], "owner/tool           /opt/tool            v1.2.0    ");
}

#[test]
fn full_name_joins_author_and_repo() {
    assert_eq!(entry("o", "r", "/p", "v").full_name(), "o/r");
}
