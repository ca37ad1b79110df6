//! The list of server shortcuts and where it is kept.

use crate::models::Server;
use crate::paths::{config_directory, join_path, joined_path};
use crate::text::{blank, is_blank};
use std::path::PathBuf;
use vstd::prelude::*;
use vstd::string::*;

verus! {

/// Name of the directory, below the user's configuration directory, that
/// holds the server list.
pub const CONFIG_DIR: &'static str = "hop";

/// Name of the file that holds the server list.
pub const CONFIG_FILE: &'static str = "servers.json";

/// Why an operation on the server list failed.
#[derive(Debug)]
pub enum ConfigError {
    /// A server of this name is in the list already.
    AlreadyExists(String),
    /// No server of this name is in the list.
    NotFound(String),
    /// The user's configuration directory is not known.
    NoConfigDir,
    /// The file of the server list could not be read.
    Unreadable,
    /// The file of the server list does not hold a server list.
    Malformed,
}

impl ConfigError {
    /// The text of [`ConfigError::message`].
    pub open spec fn message_text(self) -> Seq<char> {
        match self {
            ConfigError::AlreadyExists(name) => "Server with name '"@ + name@ + "' already exists"@,
            ConfigError::NotFound(name) => "Server '"@ + name@ + "' not found"@,
            ConfigError::NoConfigDir => "Could not find config directory"@,
            ConfigError::Unreadable => "Failed to read config file"@,
            ConfigError::Malformed => "Failed to parse config file"@,
        }
    }

    /// One human-readable line for this error.
    pub fn message(&self) -> (text: String)
        ensures
            text@ == self.message_text(),
    {
        match self {
            ConfigError::AlreadyExists(name) => {
                let mut text = "Server with name '".to_string();
                text.append(name.as_str());
                text.append("' already exists");
                text
            },
            ConfigError::NotFound(name) => {
                let mut text = "Server '".to_string();
                text.append(name.as_str());
                text.append("' not found");
                text
            },
            ConfigError::NoConfigDir => "Could not find config directory".to_string(),
            ConfigError::Unreadable => "Failed to read config file".to_string(),
            ConfigError::Malformed => "Failed to parse config file".to_string(),
        }
    }
}

/// Whether some server of the list has this name.
pub open spec fn has_server(servers: Seq<Server>, identifier: Seq<char>) -> bool {
    exists|i: int| 0 <= i < servers.len() && (#[trigger] servers[i]).name@ == identifier
}

/// Whether the server at `index` is the first of the list with this name.
pub open spec fn first_match(servers: Seq<Server>, identifier: Seq<char>, index: int) -> bool {
    &&& 0 <= index < servers.len()
    &&& servers[index].name@ == identifier
    &&& forall|j: int| 0 <= j < index ==> (#[trigger] servers[j]).name@ != identifier
}

/// The server list, in the order in which the servers were added.
#[derive(Debug)]
pub struct Config {
    pub servers: Vec<Server>,
}

impl Clone for Config {
    fn clone(&self) -> (copy: Self)
        ensures
            copy.servers@ == self.servers@,
    {
        let mut servers: Vec<Server> = Vec::new();
        let mut i: usize = 0;
        while i < self.servers.len()
            invariant
                i <= self.servers.len(),
                servers@ == self.servers@.take(i as int),
            decreases self.servers.len() - i,
        {
            servers.push(self.servers[i].clone());
            i = i + 1;
        }
        Config { servers }
    }
}

impl Default for Config {
    fn default() -> (config: Self)
        ensures
            config.servers@ == Seq::<Server>::empty(),
    {
        Config::new()
    }
}

impl Config {
    /// The empty list.
    pub fn new() -> (config: Self)
        ensures
            config.servers@ == Seq::<Server>::empty(),
    {
        Config { servers: Vec::new() }
    }

    /// The index of the first server with this name, if there is one.
    fn position(&self, identifier: &str) -> (found: Option<usize>)
        ensures
            match found {
                Some(index) => first_match(self.servers@, identifier@, index as int),
                None => !has_server(self.servers@, identifier@),
            },
    {
        let wanted = identifier.to_string();
        let mut i: usize = 0;
        while i < self.servers.len()
            invariant
                i <= self.servers.len(),
                wanted@ == identifier@,
                forall|j: int| 0 <= j < i ==> (#[trigger] self.servers@[j]).name@ != identifier@,
            decreases self.servers.len() - i,
        {
            if self.servers[i].name == wanted {
                return Some(i);
            }
            i = i + 1;
        }
        None
    }

    /// Appends a server, unless one of its name is in the list already.
    pub fn add_server(&mut self, server: Server) -> (result: Result<(), ConfigError>)
        ensures
            has_server(old(self).servers@, server.name@) ==> final(self).servers@ == old(
                self,
            ).servers@ && (result matches Err(ConfigError::AlreadyExists(name)) && name@
                == server.name@),
            !has_server(old(self).servers@, server.name@) ==> final(self).servers@ == old(
                self,
            ).servers@.push(server) && result is Ok,
    {
        match self.position(server.name.as_str()) {
            Some(_) => Err(ConfigError::AlreadyExists(server.name)),
            None => {
                self.servers.push(server);
                Ok(())
            },
        }
    }

    /// Takes the first server with this name out of the list.
    pub fn remove_server(&mut self, identifier: &str) -> (result: Result<Server, ConfigError>)
        ensures
            match result {
                Ok(server) => exists|index: int|
                    first_match(old(self).servers@, identifier@, index) && server == old(
                        self,
                    ).servers@[index] && final(self).servers@ == old(self).servers@.remove(index),
                Err(error) => !has_server(old(self).servers@, identifier@) && final(self).servers@
                    == old(self).servers@ && (error matches ConfigError::NotFound(name) && name@
                    == identifier@),
            },
    {
        match self.position(identifier) {
            Some(index) => Ok(self.servers.remove(index)),
            None => Err(ConfigError::NotFound(identifier.to_string())),
        }
    }

    /// The first server with this name.
    pub fn find_server(&self, identifier: &str) -> (found: Option<&Server>)
        ensures
            match found {
                Some(server) => exists|index: int|
                    first_match(self.servers@, identifier@, index) && *server
                        == self.servers@[index],
                None => !has_server(self.servers@, identifier@),
            },
    {
        match self.position(identifier) {
            Some(index) => Some(&self.servers[index]),
            None => None,
        }
    }

    /// The first server with this name, to be changed in place: the list
    /// ends up with whatever the caller leaves in it, at the same index.
    pub fn find_server_mut(&mut self, identifier: &str) -> (found: Option<&mut Server>)
        ensures
            match found {
                Some(server) => exists|index: int|
                    first_match(old(self).servers@, identifier@, index) && *server == old(
                        self,
                    ).servers@[index] && final(self).servers@ == old(self).servers@.update(
                        index,
                        *final(server),
                    ),
                None => !has_server(old(self).servers@, identifier@) && final(self).servers@
                    == old(self).servers@,
            },
    {
        match self.position(identifier) {
            Some(index) => Some(&mut self.servers[index]),
            None => None,
        }
    }

    /// All servers, in order.
    pub fn list_servers(&self) -> (servers: &[Server])
        ensures
            servers@ == self.servers@,
    {
        self.servers.as_slice()
    }

    /// Whether the list holds no server.
    pub fn is_empty(&self) -> (empty: bool)
        ensures
            empty == (self.servers@.len() == 0),
    {
        self.servers.len() == 0
    }
}

/// The file of the server list for a configuration directory.
pub open spec fn config_file_of(config_dir: PathBuf) -> PathBuf {
    joined_path(joined_path(config_dir, CONFIG_DIR@), CONFIG_FILE@)
}

/// What a read of the server-list file found.
#[derive(Debug)]
pub enum ConfigRead {
    /// There is no such file.
    Missing,
    /// The file exists and could not be read.
    Unreadable,
    /// The file was read. `parsed` is its text as a server list, or `None`
    /// if it is not one.
    Text { text: String, parsed: Option<Config> },
}

/// What [`ConfigManager::load`] makes of a read: no file, or a file that is
/// empty or all whitespace, is the empty list.
pub open spec fn loaded_config(read: ConfigRead) -> Result<Seq<Server>, ConfigError> {
    match read {
        ConfigRead::Missing => Ok(Seq::<Server>::empty()),
        ConfigRead::Unreadable => Err(ConfigError::Unreadable),
        ConfigRead::Text { text, parsed } => if blank(text@) {
            Ok(Seq::<Server>::empty())
        } else {
            match parsed {
                Some(config) => Ok(config.servers@),
                None => Err(ConfigError::Malformed),
            }
        },
    }
}

/// Knows where the server list is kept.
#[derive(Debug)]
pub struct ConfigManager {
    config_path: PathBuf,
}

impl ConfigManager {
    /// The file of the server list.
    pub closed spec fn path(self) -> PathBuf {
        self.config_path
    }

    /// The manager for a configuration directory: the list is kept in
    /// `hop/servers.json` below it. Without a directory there is no manager.
    pub fn at(config_dir: Option<PathBuf>) -> (result: Result<Self, ConfigError>)
        ensures
            match config_dir {
                Some(dir) => result matches Ok(manager) && manager.path() == config_file_of(dir),
                None => result matches Err(ConfigError::NoConfigDir),
            },
    {
        match config_dir {
            Some(dir) => {
                let hop_dir = join_path(&dir, CONFIG_DIR);
                Ok(ConfigManager { config_path: join_path(&hop_dir, CONFIG_FILE) })
            },
            None => Err(ConfigError::NoConfigDir),
        }
    }

    /// The manager for the current user's configuration directory.
    ///
    /// Which directory that is, and whether there is one, is up to the
    /// environment; [`ConfigManager::at`] says what follows from it.
    pub fn new() -> (result: Result<Self, ConfigError>)
        ensures
            match result {
                Ok(manager) => exists|dir: PathBuf| manager.path() == config_file_of(dir),
                Err(error) => error matches ConfigError::NoConfigDir,
            },
    {
        ConfigManager::at(config_directory())
    }

    /// The server list, from what a read of its file found.
    pub fn load(&self, read: ConfigRead) -> (result: Result<Config, ConfigError>)
        ensures
            match loaded_config(read) {
                Ok(servers) => result matches Ok(config) && config.servers@ == servers,
                Err(error) => result matches Err(e) && e == error,
            },
    {
        match read {
            ConfigRead::Missing => Ok(Config::new()),
            ConfigRead::Unreadable => Err(ConfigError::Unreadable),
            ConfigRead::Text { text, parsed } => {
                if is_blank(text.as_str()) {
                    Ok(Config::new())
                } else {
                    match parsed {
                        Some(config) => Ok(config),
                        None => Err(ConfigError::Malformed),
                    }
                }
            },
        }
    }

    /// The file of the server list.
    pub fn get_config_path(&self) -> (path: &PathBuf)
        ensures
            *path == self.path(),
    {
        &self.config_path
    }

    /// The file of the server list, by value.
    pub fn into_config_path(self) -> (path: PathBuf)
        ensures
            path == self.path(),
    {
        self.config_path
    }
}

/// The file of the current user's server list.
pub fn get_config_file_path() -> (result: Result<PathBuf, ConfigError>)
    ensures
        match result {
            Ok(path) => exists|dir: PathBuf| path == config_file_of(dir),
            Err(error) => error matches ConfigError::NoConfigDir,
        },
{
    match ConfigManager::new() {
        Ok(manager) => Ok(manager.into_config_path()),
        Err(error) => Err(error),
    }
}

} // verus!
