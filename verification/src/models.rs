//! The server shortcut record.

use vstd::prelude::*;
use vstd::string::*;

verus! {

/// A named shortcut to an SSH endpoint.
#[derive(Debug)]
pub struct Server {
    pub name: String,
    pub user: String,
    pub ip: String,
}

impl Clone for Server {
    fn clone(&self) -> (copy: Self)
        ensures
            copy == *self,
    {
        Server { name: self.name.clone(), user: self.user.clone(), ip: self.ip.clone() }
    }
}

impl Server {
    /// The command line that opens a shell on the server: `ssh user@ip`.
    pub open spec fn ssh_command_text(self) -> Seq<char> {
        "ssh "@ + self.user@ + "@"@ + self.ip@
    }

    /// How the server is shown in messages and lists: `name -> user@ip`.
    pub open spec fn display_text(self) -> Seq<char> {
        self.name@ + " -> "@ + self.user@ + "@"@ + self.ip@
    }

    /// The SSH target of the server: `user@ip`.
    pub open spec fn target_text(self) -> Seq<char> {
        self.user@ + "@"@ + self.ip@
    }

    /// Builds a record from its three fields.
    pub fn new(name: String, user: String, ip: String) -> (server: Self)
        ensures
            server.name == name,
            server.user == user,
            server.ip == ip,
    {
        Server { name, user, ip }
    }

    /// The identifier of the server: its name.
    pub fn identifier(&self) -> (identifier: &str)
        ensures
            identifier@ == self.name@,
    {
        self.name.as_str()
    }

    /// Whether `identifier` names this server.
    pub fn matches(&self, identifier: &str) -> (matched: bool)
        ensures
            matched == (self.name@ == identifier@),
    {
        self.name == identifier.to_string()
    }

    /// The command line that opens a shell on the server.
    pub fn ssh_command(&self) -> (command: String)
        ensures
            command@ == self.ssh_command_text(),
    {
        let mut command = "ssh ".to_string();
        command.append(self.user.as_str());
        command.append("@");
        command.append(self.ip.as_str());
        command
    }

    /// The SSH target of the server.
    pub fn target(&self) -> (target: String)
        ensures
            target@ == self.target_text(),
    {
        let mut target = self.user.clone();
        target.append("@");
        target.append(self.ip.as_str());
        target
    }

    /// How the server is shown in messages and lists.
    pub fn display(&self) -> (text: String)
        ensures
            text@ == self.display_text(),
    {
        let mut text = self.name.clone();
        text.append(" -> ");
        text.append(self.user.as_str());
        text.append("@");
        text.append(self.ip.as_str());
        text
    }
}

} // verus!
