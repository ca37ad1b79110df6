//! The credential store: one access token per user, in one file.
//!
//! The file is a JSON object with the single key `access_token`. The
//! library decides what is written and in which order the disk is touched,
//! and reads what a load found; its driver touches the disk and turns text
//! into an [`AuthToken`] and back.

use crate::paths::{home_directory, join_path, joined_path};
use std::path::PathBuf;
use vstd::prelude::*;
use vstd::string::*;

verus! {

/// Name of the directory, below the home directory, that holds the file.
pub const CREDENTIAL_DIR: &'static str = ".hop";

/// Name of the credential file in that directory.
pub const CREDENTIAL_FILE: &'static str = "config.json";

/// The persisted credential.
#[derive(Debug)]
pub struct AuthToken {
    pub access_token: String,
}

/// Why the credential store failed.
#[derive(Debug, Clone, Copy, PartialEq, Eq, Structural)]
pub enum StoreError {
    /// No credential file exists.
    NotFound,
    /// The file does not hold a serialized credential.
    Schema,
    /// The directory could not be created, or the file could not be read
    /// or written.
    Io,
}

impl StoreError {
    /// The text of [`StoreError::message`].
    pub open spec fn message_text(self) -> Seq<char> {
        match self {
            StoreError::NotFound => "No stored credential was found. Please log in first."@,
            StoreError::Schema => "The stored credential could not be read."@,
            StoreError::Io => "The credential file could not be accessed."@,
        }
    }

    /// One human-readable line for this error.
    pub fn message(&self) -> (text: String)
        ensures
            text@ == self.message_text(),
    {
        match self {
            StoreError::NotFound => "No stored credential was found. Please log in first.".to_string(),
            StoreError::Schema => "The stored credential could not be read.".to_string(),
            StoreError::Io => "The credential file could not be accessed.".to_string(),
        }
    }
}

/// The credential file for a home directory: the file [`CREDENTIAL_FILE`]
/// in the directory [`CREDENTIAL_DIR`] below it.
pub open spec fn credential_file_of(home: PathBuf) -> PathBuf {
    joined_path(joined_path(home, CREDENTIAL_DIR@), CREDENTIAL_FILE@)
}

/// The credential file, for this home directory.
pub fn credential_file_in(home: &PathBuf) -> (file: PathBuf)
    ensures
        file == credential_file_of(*home),
{
    let dir = join_path(home, CREDENTIAL_DIR);
    join_path(&dir, CREDENTIAL_FILE)
}

/// The credential file for what a lookup of the home directory gave: the
/// file below that directory, and `None` where no directory was found.
pub fn credential_file_for(home: Option<PathBuf>) -> (path: Option<PathBuf>)
    ensures
        match home {
            Some(dir) => path == Some(credential_file_of(dir)),
            None => path is None,
        },
{
    match home {
        Some(dir) => Some(credential_file_in(&dir)),
        None => None,
    }
}

/// The credential file of the current user: `.hop/config.json` below the
/// home directory, or `None` if no home directory is known.
///
/// Which home directory is found, and whether one is, is up to the
/// environment; for each answer [`credential_file_for`] says what the
/// path is.
pub fn get_config_path() -> (path: Option<PathBuf>)
    ensures
        path matches Some(file) ==> exists|home: PathBuf| file == credential_file_of(home),
{
    credential_file_for(home_directory())
}

/// What a read of the credential file found.
#[derive(Debug)]
pub enum FileRead {
    /// There is no such file.
    Missing,
    /// The file exists and could not be read.
    Unreadable,
    /// The file was read; this is its text as a serialized credential, or
    /// `None` if it is not one.
    Text(Option<AuthToken>),
}

/// What [`load_token`] makes of a read.
pub open spec fn loaded(read: FileRead) -> Result<AuthToken, StoreError> {
    match read {
        FileRead::Missing => Err(StoreError::NotFound),
        FileRead::Unreadable => Err(StoreError::Io),
        FileRead::Text(None) => Err(StoreError::Schema),
        FileRead::Text(Some(token)) => Ok(token),
    }
}

/// The stored credential, from what a read of the credential file found.
///
/// A missing file is `NotFound`, text that is no credential is `Schema`,
/// and a file that could not be read is `Io`.
pub fn load_token(read: FileRead) -> (result: Result<AuthToken, StoreError>)
    ensures
        result == loaded(read),
{
    match read {
        FileRead::Missing => Err(StoreError::NotFound),
        FileRead::Unreadable => Err(StoreError::Io),
        FileRead::Text(None) => Err(StoreError::Schema),
        FileRead::Text(Some(token)) => Ok(token),
    }
}

/// Where a store stands.
#[derive(Debug, Clone, Copy, PartialEq, Eq, Structural)]
pub enum StorePhase {
    /// It is to be found out whether the directory exists.
    ProbingDirectory,
    /// The directory is absent and to be created.
    CreatingDirectory,
    /// The file is to be written.
    Writing,
    /// Done: the file holds the credential.
    Stored,
    /// Given up: the disk refused.
    Failed,
}

/// What the disk reports to a store.
#[derive(Debug, Clone, Copy, PartialEq, Eq, Structural)]
pub enum StoreEvent {
    /// Whether the directory exists.
    DirectoryProbed { exists: bool },
    /// Whether the directory, with its parents, could be created.
    DirectoryCreated { ok: bool },
    /// Whether the file could be created and written in full.
    Written { ok: bool },
}

/// What the driver of a store has to do next.
#[derive(Debug, Clone, Copy, PartialEq, Eq, Structural)]
pub enum StoreAction {
    /// Find out whether the directory exists.
    ProbeDirectory,
    /// Create the directory and its parents, with default permissions.
    CreateDirectory,
    /// Replace the content of the file by the serialized credential.
    Write,
    /// Nothing: the store is over.
    Stop,
}

/// The mathematical content of a [`StoreSession`].
pub struct StoreView {
    /// The access token to be persisted.
    pub access_token: Seq<char>,
    pub phase: StorePhase,
}

impl StoreView {
    /// A store of this token that has touched nothing yet.
    pub open spec fn start(access_token: Seq<char>) -> StoreView {
        StoreView { access_token, phase: StorePhase::ProbingDirectory }
    }

    /// The store after one event.
    ///
    /// The directory is created only if it is absent, the file is written
    /// only once the directory is there, and any refusal of the disk ends
    /// the store. An event that the store does not wait for changes
    /// nothing.
    pub open spec fn step(self, event: StoreEvent) -> StoreView {
        let phase = match (self.phase, event) {
            (StorePhase::ProbingDirectory, StoreEvent::DirectoryProbed { exists }) => if exists {
                StorePhase::Writing
            } else {
                StorePhase::CreatingDirectory
            },
            (StorePhase::CreatingDirectory, StoreEvent::DirectoryCreated { ok }) => if ok {
                StorePhase::Writing
            } else {
                StorePhase::Failed
            },
            (StorePhase::Writing, StoreEvent::Written { ok }) => if ok {
                StorePhase::Stored
            } else {
                StorePhase::Failed
            },
            (phase, _) => phase,
        };
        StoreView { phase, ..self }
    }

    /// What the driver of the store has to do next.
    pub open spec fn action(self) -> StoreAction {
        match self.phase {
            StorePhase::ProbingDirectory => StoreAction::ProbeDirectory,
            StorePhase::CreatingDirectory => StoreAction::CreateDirectory,
            StorePhase::Writing => StoreAction::Write,
            _ => StoreAction::Stop,
        }
    }

    /// How the store ended: `None` while it is running.
    pub open spec fn outcome(self) -> Option<Result<(), StoreError>> {
        match self.phase {
            StorePhase::Stored => Some(Ok(())),
            StorePhase::Failed => Some(Err(StoreError::Io)),
            _ => None,
        }
    }
}

/// One store of an access token, from the probe of the directory to the
/// written file.
#[derive(Debug)]
pub struct StoreSession {
    record: AuthToken,
    phase: StorePhase,
}

impl View for StoreSession {
    type V = StoreView;

    closed spec fn view(&self) -> StoreView {
        StoreView { access_token: self.record.access_token@, phase: self.phase }
    }
}

impl StoreSession {
    #[verifier::type_invariant]
    spec fn well_formed(self) -> bool {
        self.record.access_token@.len() > 0
    }

    /// A store of this token that has touched nothing yet.
    pub fn new(token: &str) -> (session: Self)
        requires
            token@.len() > 0,
        ensures
            session@ == StoreView::start(token@),
    {
        StoreSession {
            record: AuthToken { access_token: token.to_string() },
            phase: StorePhase::ProbingDirectory,
        }
    }

    /// The credential that the file is to hold: the token of this store and
    /// nothing else.
    pub fn record(&self) -> (record: &AuthToken)
        ensures
            record.access_token@ == self@.access_token,
            record.access_token@.len() > 0,
    {
        proof {
            use_type_invariant(self);
        }
        &self.record
    }

    /// Where the store stands.
    pub fn phase(&self) -> (phase: StorePhase)
        ensures
            phase == self@.phase,
    {
        self.phase
    }

    /// What the driver has to do next.
    pub fn action(&self) -> (action: StoreAction)
        ensures
            action == self@.action(),
    {
        match self.phase {
            StorePhase::ProbingDirectory => StoreAction::ProbeDirectory,
            StorePhase::CreatingDirectory => StoreAction::CreateDirectory,
            StorePhase::Writing => StoreAction::Write,
            _ => StoreAction::Stop,
        }
    }

    /// How the store ended: `None` while it is running.
    pub fn outcome(&self) -> (outcome: Option<Result<(), StoreError>>)
        ensures
            outcome == self@.outcome(),
    {
        match self.phase {
            StorePhase::Stored => Some(Ok(())),
            StorePhase::Failed => Some(Err(StoreError::Io)),
            _ => None,
        }
    }
}

/// Advances a store by one event and says what its driver has to do next.
pub fn store_token(session: StoreSession, event: StoreEvent) -> (next: (StoreSession, StoreAction))
    ensures
        next.0@ == session@.step(event),
        next.1 == next.0@.action(),
{
    proof {
        use_type_invariant(&session);
    }
    let StoreSession { record, phase } = session;
    let phase = match (phase, event) {
        (StorePhase::ProbingDirectory, StoreEvent::DirectoryProbed { exists }) => if exists {
            StorePhase::Writing
        } else {
            StorePhase::CreatingDirectory
        },
        (StorePhase::CreatingDirectory, StoreEvent::DirectoryCreated { ok }) => if ok {
            StorePhase::Writing
        } else {
            StorePhase::Failed
        },
        (StorePhase::Writing, StoreEvent::Written { ok }) => if ok {
            StorePhase::Stored
        } else {
            StorePhase::Failed
        },
        (phase, _) => phase,
    };
    let next = StoreSession { record, phase };
    let action = next.action();
    (next, action)
}

/// The part of a disk that the credential store touches, for a disk that
/// works: whether the directory is there, and what the file holds.
///
/// The file is spoken of by the access token in it, `None` for no file.
/// That the bytes on the disk and the JSON text in them keep the token is
/// the part of the driver and is taken for granted here.
pub struct DiskView {
    pub directory: bool,
    pub file: Option<Seq<char>>,
}

impl DiskView {
    /// A disk on which nothing has been stored yet.
    pub open spec fn fresh() -> DiskView {
        DiskView { directory: false, file: None }
    }

    /// What the disk reports when it is asked for `action`. A file can be
    /// written only into a directory that is there.
    pub open spec fn report(self, action: StoreAction) -> StoreEvent {
        match action {
            StoreAction::CreateDirectory => StoreEvent::DirectoryCreated { ok: true },
            StoreAction::Write => StoreEvent::Written { ok: self.directory },
            _ => StoreEvent::DirectoryProbed { exists: self.directory },
        }
    }

    /// The disk after it was asked for `action` by a store of `token`: a
    /// write replaces whatever the file held.
    pub open spec fn after(self, action: StoreAction, token: Seq<char>) -> DiskView {
        match action {
            StoreAction::CreateDirectory => DiskView { directory: true, ..self },
            StoreAction::Write => if self.directory {
                DiskView { file: Some(token), ..self }
            } else {
                self
            },
            _ => self,
        }
    }

    /// One round between a store and the disk: the disk does what the store
    /// asks for, and the store takes in what the disk reports.
    pub open spec fn serve(self, store: StoreView) -> (DiskView, StoreView) {
        (
            self.after(store.action(), store.access_token),
            store.step(self.report(store.action())),
        )
    }

    /// A store of `token` on this disk, from its start through the three
    /// rounds that it takes at most.
    pub open spec fn store(self, token: Seq<char>) -> (DiskView, StoreView) {
        let first = self.serve(StoreView::start(token));
        let second = first.0.serve(first.1);
        second.0.serve(second.1)
    }

    /// Whether `read` is what a read of the credential file finds on this
    /// disk.
    pub open spec fn reads_as(self, read: FileRead) -> bool {
        match self.file {
            None => read is Missing,
            Some(token) => read matches FileRead::Text(Some(record)) && record.access_token@
                == token,
        }
    }
}

/// On a disk that works, a store ends well and leaves the directory in
/// place and the file holding its token, whatever the disk held before.
pub proof fn lemma_store_completes(disk: DiskView, token: Seq<char>)
    ensures
        disk.store(token).1 == (StoreView { access_token: token, phase: StorePhase::Stored }),
        disk.store(token).0 == (DiskView { directory: true, file: Some(token) }),
{
}

/// Store, then load: the credential that comes back carries the token that
/// was stored last.
///
/// After a store of one token the file reads as a credential with that
/// token; after a store of a second token it reads with the second, and the
/// first is gone.
pub proof fn lemma_store_then_load(
    disk: DiskView,
    first: Seq<char>,
    second: Seq<char>,
    read_once: FileRead,
    read_twice: FileRead,
)
    requires
        disk.store(first).0.reads_as(read_once),
        disk.store(first).0.store(second).0.reads_as(read_twice),
    ensures
        loaded(read_once) matches Ok(credential) && credential.access_token@ == first,
        loaded(read_twice) matches Ok(credential) && credential.access_token@ == second,
{
    lemma_store_completes(disk, first);
    lemma_store_completes(disk.store(first).0, second);
}

/// Load with no store before it: on a fresh disk the load fails with
/// `NotFound`.
pub proof fn lemma_load_without_store(read: FileRead)
    requires
        DiskView::fresh().reads_as(read),
    ensures
        loaded(read) == Err::<AuthToken, StoreError>(StoreError::NotFound),
{
}

} // verus!
