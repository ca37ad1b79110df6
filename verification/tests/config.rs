use hop::config::{get_config_file_path, Config, ConfigError, ConfigManager, ConfigRead};
use hop::models::Server;
use std::path::PathBuf;

fn server(name: &str, ip: &str) -> Server {
    Server::new(name.to_string(), "user".to_string(), ip.to_string())
}

#[test]
fn test_config_add_server() {
    let mut config = Config::new();
    let server = Server::new("test".to_string(), "user".to_string(), "192.168.1.1".to_string());

    assert!(config.add_server(server).is_ok());
    assert_eq!(config.servers.len(), 1);
}

#[test]
fn test_config_add_duplicate_server() {
    let mut config = Config::new();
    let server1 = Server::new("test".to_string(), "user".to_string(), "192.168.1.1".to_string());
    let server2 = Server::new("test".to_string(), "user".to_string(), "192.168.1.2".to_string());

    assert!(config.add_server(server1).is_ok());
    assert!(config.add_server(server2).is_err());
}

#[test]
fn test_config_find_server() {
    let mut config = Config::new();
    let server = Server::new("test".to_string(), "user".to_string(), "192.168.1.1".to_string());

    config.add_server(server).unwrap();

    assert!(config.find_server("test").is_some());
    assert!(config.find_server("nonexistent").is_none());
}

#[test]
fn test_config_remove_server() {
    let mut config = Config::new();
    let server = Server::new("test".to_string(), "user".to_string(), "192.168.1.1".to_string());

    config.add_server(server).unwrap();
    assert_eq!(config.servers.len(), 1);

    assert!(config.remove_server("test").is_ok());
    assert_eq!(config.servers.len(), 0);

    assert!(config.remove_server("nonexistent").is_err());
}

#[test]
fn duplicate_is_refused_and_leaves_the_list_alone() {
    let mut config = Config::new();
    config.add_server(server("a", "10.0.0.1")).unwrap();
    let error = config.add_server(server("a", "10.0.0.2")).unwrap_err();
    assert!(matches!(&error, ConfigError::AlreadyExists(name) if name == "a"));
    assert_eq!(error.message(), "Server with name 'a' already exists");
    assert_eq!(config.servers.len(), 1);
    assert_eq!(config.servers[0].ip, "10.0.0.1");
}

#[test]
fn servers_keep_the_order_in_which_they_were_added() {
    let mut config = Config::new();
    config.add_server(server("a", "10.0.0.1")).unwrap();
    config.add_server(server("b", "10.0.0.2")).unwrap();
    config.add_server(server("c", "10.0.0.3")).unwrap();
    let names: Vec<&str> = config.list_servers().iter().map(|s| s.name.as_str()).collect();
    assert_eq!(names, vec!["a", "b", "c"]);
    let removed = config.remove_server("b").unwrap();
    assert_eq!(removed.ip, "10.0.0.2");
    let names: Vec<&str> = config.list_servers().iter().map(|s| s.name.as_str()).collect();
    assert_eq!(names, vec!["a", "c"]);
}

#[test]
fn remove_takes_the_first_of_equal_names() {
    let mut config = Config { servers: vec![server("a", "1.1.1.1"), server("a", "2.2.2.2")] };
    assert_eq!(config.find_server("a").unwrap().ip, "1.1.1.1");
    let removed = config.remove_server("a").unwrap();
    assert_eq!(removed.ip, "1.1.1.1");
    assert_eq!(config.servers.len(), 1);
    assert_eq!(config.servers[0].ip, "2.2.2.2");
}

#[test]
fn remove_of_a_missing_server_names_it() {
    let mut config = Config::new();
    let error = config.remove_server("ghost").unwrap_err();
    assert!(matches!(&error, ConfigError::NotFound(name) if name == "ghost"));
    assert_eq!(error.message(), "Server 'ghost' not found");
}

#[test]
fn find_server_mut_changes_the_list_in_place() {
    let mut config = Config::new();
    config.add_server(server("a", "10.0.0.1")).unwrap();
    config.add_server(server("b", "10.0.0.2")).unwrap();
    config.find_server_mut("b").unwrap().ip = "10.9.9.9".to_string();
    assert_eq!(config.servers[1].ip, "10.9.9.9");
    assert_eq!(config.servers[0].ip, "10.0.0.1");
    assert!(config.find_server_mut("zzz").is_none());
}

#[test]
fn empty_and_default_configs() {
    assert!(Config::new().is_empty());
    assert!(Config::default().is_empty());
    let mut config = Config::new();
    config.add_server(server("a", "10.0.0.1")).unwrap();
    assert!(!config.is_empty());
    assert_eq!(config.list_servers().len(), 1);
    let copy = config.clone();
    assert_eq!(copy.servers.len(), 1);
    assert_eq!(copy.servers[0].name, "a");
}

#[test]
fn manager_keeps_the_list_below_the_config_directory() {
    let manager = ConfigManager::at(Some(PathBuf::from("/home/alice/.config"))).unwrap();
    let expected = PathBuf::from("/home/alice/.config").join("hop").join("servers.json");
    assert_eq!(manager.get_config_path(), &expected);
    assert_eq!(manager.into_config_path(), expected);
    assert!(matches!(ConfigManager::at(None), Err(ConfigError::NoConfigDir)));
    assert_eq!(ConfigError::NoConfigDir.message(), "Could not find config directory");
}

#[test]
fn manager_for_the_current_user() {
    match ConfigManager::new() {
        Ok(manager) => assert!(manager.get_config_path().ends_with("hop/servers.json")),
        Err(error) => assert!(matches!(error, ConfigError::NoConfigDir)),
    }
    match get_config_file_path() {
        Ok(path) => assert!(path.ends_with("hop/servers.json")),
        Err(error) => assert!(matches!(error, ConfigError::NoConfigDir)),
    }
}

#[test]
fn load_reads_a_missing_or_blank_file_as_the_empty_list() {
    let manager = ConfigManager::at(Some(PathBuf::from("/tmp/x"))).unwrap();
    assert!(manager.load(ConfigRead::Missing).unwrap().is_empty());
    let blank = ConfigRead::Text { text: " \n\t ".to_string(), parsed: None };
    assert!(manager.load(blank).unwrap().is_empty());
    let empty = ConfigRead::Text { text: String::new(), parsed: None };
    assert!(manager.load(empty).unwrap().is_empty());
}

#[test]
fn load_hands_on_what_was_parsed() {
    let manager = ConfigManager::at(Some(PathBuf::from("/tmp/x"))).unwrap();
    let parsed = Config { servers: vec![server("a", "10.0.0.1")] };
    let read = ConfigRead::Text { text: "{\"servers\":[]}".to_string(), parsed: Some(parsed) };
    let config = manager.load(read).unwrap();
    assert_eq!(config.servers.len(), 1);
    assert_eq!(config.servers[0].name, "a");
}

#[test]
fn load_reports_what_went_wrong() {
    let manager = ConfigManager::at(Some(PathBuf::from("/tmp/x"))).unwrap();
    let garbled = ConfigRead::Text { text: "not json".to_string(), parsed: None };
    let error = manager.load(garbled).unwrap_err();
    assert!(matches!(error, ConfigError::Malformed));
    assert_eq!(error.message(), "Failed to parse config file");
    let error = manager.load(ConfigRead::Unreadable).unwrap_err();
    assert!(matches!(error, ConfigError::Unreadable));
    assert_eq!(error.message(), "Failed to read config file");
}
