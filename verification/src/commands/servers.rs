//! The commands that change the server list.

use crate::config::{first_match, has_server, Config};
use crate::models::Server;
use crate::utils::{is_valid_ip, is_valid_server_name, valid_ip, valid_server_name};
use vstd::prelude::*;
use vstd::string::*;

verus! {

/// Why a command on the server list was refused.
#[derive(Debug)]
pub enum CommandError {
    /// The name is empty or holds a character that no name may hold.
    InvalidName,
    /// The address is not four numbers from 0 to 255 with dots between.
    InvalidIp,
    /// No server of this name is in the list.
    NotFound(String),
}

impl CommandError {
    /// The text of [`CommandError::message`].
    pub open spec fn message_text(self) -> Seq<char> {
        match self {
            CommandError::InvalidName => "Invalid server name. Use only alphanumeric characters, hyphens, and underscores."@,
            CommandError::InvalidIp => "Invalid IP address format."@,
            CommandError::NotFound(name) => "Server '"@ + name@ + "' not found"@,
        }
    }

    /// One human-readable line for this error.
    pub fn message(&self) -> (text: String)
        ensures
            text@ == self.message_text(),
    {
        match self {
            CommandError::InvalidName => "Invalid server name. Use only alphanumeric characters, hyphens, and underscores.".to_string(),
            CommandError::InvalidIp => "Invalid IP address format.".to_string(),
            CommandError::NotFound(name) => {
                let mut text = "Server '".to_string();
                text.append(name.as_str());
                text.append("' not found");
                text
            },
        }
    }
}

/// Checks the name and the address of a server that is to be added: the
/// name first.
pub fn validate_new_server(name: &str, ip: &str) -> (result: Result<(), CommandError>)
    ensures
        !valid_server_name(name@) ==> result matches Err(CommandError::InvalidName),
        valid_server_name(name@) && !valid_ip(ip@) ==> result matches Err(CommandError::InvalidIp),
        valid_server_name(name@) && valid_ip(ip@) ==> result is Ok,
{
    if !is_valid_server_name(name) {
        Err(CommandError::InvalidName)
    } else if !is_valid_ip(ip) {
        Err(CommandError::InvalidIp)
    } else {
        Ok(())
    }
}

/// What an edit did.
#[derive(Debug)]
pub enum EditOutcome {
    /// No new value was given: nothing has changed.
    Unchanged,
    /// The server has been changed into this.
    Updated(Server),
}

/// A server after an edit: each field that is given replaces the old one.
pub open spec fn edited(
    server: Server,
    name: Option<String>,
    user: Option<String>,
    ip: Option<String>,
) -> Server {
    Server {
        name: match name {
            Some(n) => n,
            None => server.name,
        },
        user: match user {
            Some(u) => u,
            None => server.user,
        },
        ip: match ip {
            Some(i) => i,
            None => server.ip,
        },
    }
}

/// Whether `after` is `before` with the first server of this name replaced
/// by `server`, and `server` is that one after the edit.
pub open spec fn edit_applied(
    before: Seq<Server>,
    after: Seq<Server>,
    identifier: Seq<char>,
    server: Server,
    name: Option<String>,
    user: Option<String>,
    ip: Option<String>,
) -> bool {
    exists|index: int|
        first_match(before, identifier, index) && server == edited(before[index], name, user, ip)
            && after == before.update(index, server)
}

/// Changes the first server with this name.
///
/// The server must be there; a new name must be a valid name and a new
/// address a valid address, checked in this order. If any check fails the
/// list stays as it is. With no new value at all nothing changes either,
/// and the outcome says so.
pub fn edit_server(
    config: &mut Config,
    identifier: &str,
    name: Option<String>,
    user: Option<String>,
    ip: Option<String>,
) -> (result: Result<EditOutcome, CommandError>)
    ensures
        !has_server(old(config).servers@, identifier@) ==> (result matches Err(
            CommandError::NotFound(missing),
        ) && missing@ == identifier@),
        has_server(old(config).servers@, identifier@) && (name matches Some(n)
            && !valid_server_name(n@)) ==> result matches Err(CommandError::InvalidName),
        has_server(old(config).servers@, identifier@) && !(name matches Some(n)
            && !valid_server_name(n@)) && (ip matches Some(i) && !valid_ip(i@)) ==> result matches Err(
            CommandError::InvalidIp,
        ),
        has_server(old(config).servers@, identifier@) && !(name matches Some(n)
            && !valid_server_name(n@)) && !(ip matches Some(i) && !valid_ip(i@)) ==> result is Ok,
        result is Err ==> final(config).servers@ == old(config).servers@,
        result matches Ok(EditOutcome::Unchanged) ==> name is None && user is None && ip is None
            && final(config).servers@ == old(config).servers@,
        result matches Ok(EditOutcome::Updated(server)) ==> !(name is None && user is None
            && ip is None) && edit_applied(
            old(config).servers@,
            final(config).servers@,
            identifier@,
            server,
            name,
            user,
            ip,
        ),
{
    let ghost before = config.servers@;
    if config.find_server(identifier).is_none() {
        return Err(CommandError::NotFound(identifier.to_string()));
    }
    if let Some(new_name) = &name {
        if !is_valid_server_name(new_name.as_str()) {
            return Err(CommandError::InvalidName);
        }
    }
    if let Some(new_ip) = &ip {
        if !is_valid_ip(new_ip.as_str()) {
            return Err(CommandError::InvalidIp);
        }
    }
    if name.is_none() && user.is_none() && ip.is_none() {
        return Ok(EditOutcome::Unchanged);
    }
    let updated = match config.find_server_mut(identifier) {
        Some(server) => {
            if let Some(new_name) = name {
                server.name = new_name;
            }
            if let Some(new_user) = user {
                server.user = new_user;
            }
            if let Some(new_ip) = ip {
                server.ip = new_ip;
            }
            server.clone()
        },
        None => {
            return Err(CommandError::NotFound(identifier.to_string()));
        },
    };
    proof {
        let index = choose|index: int|
            first_match(before, identifier@, index) && config.servers@ == before.update(
                index,
                updated,
            );
        assert(updated == edited(before[index], name, user, ip));
        assert(edit_applied(before, config.servers@, identifier@, updated, name, user, ip));
    }
    Ok(EditOutcome::Updated(updated))
}

/// The list after an import: the incoming servers are added in order, and
/// one whose name is in the list by then is left out.
pub open spec fn imported(servers: Seq<Server>, incoming: Seq<Server>) -> Seq<Server>
    decreases incoming.len(),
{
    if incoming.len() == 0 {
        servers
    } else {
        let before = imported(servers, incoming.drop_last());
        if has_server(before, incoming.last().name@) {
            before
        } else {
            before.push(incoming.last())
        }
    }
}

/// What an import did.
#[derive(Debug)]
pub struct ImportSummary {
    /// For each incoming server, in order, whether it was added.
    pub outcomes: Vec<bool>,
    /// How many were added.
    pub added: usize,
    /// How many were left out because their name was taken.
    pub skipped: usize,
}

/// Adds the incoming servers to the list, in order, leaving out each one
/// whose name is taken.
pub fn import_servers(config: &mut Config, incoming: &Vec<Server>) -> (summary: ImportSummary)
    ensures
        final(config).servers@ == imported(old(config).servers@, incoming@),
        summary.outcomes@.len() == incoming@.len(),
        forall|i: int|
            0 <= i < incoming@.len() ==> #[trigger] summary.outcomes@[i] == !has_server(
                imported(old(config).servers@, incoming@.take(i)),
                incoming@[i].name@,
            ),
        summary.added + summary.skipped == incoming@.len(),
        summary.added == final(config).servers@.len() - old(config).servers@.len(),
{
    let ghost before = config.servers@;
    let mut outcomes: Vec<bool> = Vec::new();
    let mut added: usize = 0;
    let mut skipped: usize = 0;
    let mut i: usize = 0;
    proof {
        assert(incoming@.take(0) =~= Seq::<Server>::empty());
    }
    while i < incoming.len()
        invariant
            i <= incoming.len(),
            config.servers@ == imported(before, incoming@.take(i as int)),
            outcomes@.len() == i,
            forall|j: int|
                0 <= j < i ==> #[trigger] outcomes@[j] == !has_server(
                    imported(before, incoming@.take(j)),
                    incoming@[j].name@,
                ),
            added + skipped == i,
            added == config.servers@.len() - before.len(),
        decreases incoming.len() - i,
    {
        let server = incoming[i].clone();
        proof {
            assert(incoming@.take(i + 1).drop_last() =~= incoming@.take(i as int));
            assert(incoming@.take(i + 1).last() == incoming@[i as int]);
        }
        match config.add_server(server) {
            Ok(_) => {
                outcomes.push(true);
                added = added + 1;
            },
            Err(_) => {
                outcomes.push(false);
                skipped = skipped + 1;
            },
        }
        i = i + 1;
    }
    proof {
        assert(incoming@.take(i as int) =~= incoming@);
    }
    ImportSummary { outcomes, added, skipped }
}

} // verus!
