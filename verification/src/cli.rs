//! The commands of the program, as values.
//!
//! Reading them from the command line is the program's part.

use vstd::prelude::*;

verus! {

/// What the user asks for.
#[derive(Debug)]
#[allow(inconsistent_fields)]
pub enum Commands {
    /// Add a new server to the configuration.
    Add { name: String, user: String, ip: String },
    /// List all configured servers, with details if `verbose`.
    List { verbose: bool },
    /// Connect to a server via SSH, or only test the connection if `test`.
    Connect { identifier: String, test: bool },
    /// Remove a server from the configuration, without asking if `force`.
    Remove { identifier: String, force: bool },
    /// Change the fields of a server that are given.
    Edit { identifier: String, name: Option<String>, user: Option<String>, ip: Option<String> },
    /// Show where the configuration file is, or create it if `init`.
    Config { path: bool, init: bool },
    /// Copy a file to the server, or from it if `from`.
    Copy { server: String, source: String, destination: String, from: bool },
    /// Run a command on the server.
    Exec { server: String, command: String },
    /// Add the servers of a JSON file to the configuration if `merge`,
    /// or replace the configuration by them.
    Import { file: String, merge: bool },
    /// Write the servers to a JSON file, indented if `pretty`.
    Export { file: String, pretty: bool },
    /// Log in to the companion service.
    Login,
}

/// One invocation of the program.
#[derive(Debug)]
pub struct Cli {
    pub command: Commands,
}

impl Cli {
    /// The invocation that asks for `command`.
    pub fn new(command: Commands) -> (cli: Self)
        ensures
            cli.command == command,
    {
        Cli { command }
    }
}

} // verus!
