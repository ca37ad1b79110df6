use hop::auth::token::{
    credential_file_for, credential_file_in, get_config_path, load_token, store_token, AuthToken, FileRead,
    StoreAction, StoreError, StoreEvent, StorePhase, StoreSession,
};
use std::path::PathBuf;

/// The text of the credential file for a record: a JSON object with the
/// single key `access_token`, indented.
fn serialize(record: &AuthToken) -> String {
    let mut object = serde_json::Map::new();
    object.insert(
        "access_token".to_string(),
        serde_json::Value::String(record.access_token.clone()),
    );
    serde_json::to_string_pretty(&serde_json::Value::Object(object)).unwrap()
}

/// The record in a text of the credential file, if it holds one.
fn deserialize(text: &str) -> Option<AuthToken> {
    let value: serde_json::Value = serde_json::from_str(text).ok()?;
    let access_token = value.as_object()?.get("access_token")?.as_str()?.to_string();
    Some(AuthToken { access_token })
}

/// A disk that works and holds at most the one file.
struct Disk {
    directory: bool,
    file: Option<String>,
}

impl Disk {
    fn empty() -> Disk {
        Disk { directory: false, file: None }
    }

    /// Runs a store to its end.
    fn store(&mut self, token: &str) {
        let mut session = StoreSession::new(token);
        let mut action = session.action();
        loop {
            let event = match action {
                StoreAction::ProbeDirectory => StoreEvent::DirectoryProbed { exists: self.directory },
                StoreAction::CreateDirectory => {
                    self.directory = true;
                    StoreEvent::DirectoryCreated { ok: true }
                }
                StoreAction::Write => {
                    assert!(self.directory, "the file is written into a directory that exists");
                    self.file = Some(serialize(session.record()));
                    StoreEvent::Written { ok: true }
                }
                StoreAction::Stop => break,
            };
            let next = store_token(session, event);
            session = next.0;
            action = next.1;
        }
        assert_eq!(session.outcome(), Some(Ok(())));
    }

    fn read(&self) -> FileRead {
        match &self.file {
            Some(text) => FileRead::Text(deserialize(text)),
            None => FileRead::Missing,
        }
    }
}

#[test]
fn store_then_load() {
    let mut disk = Disk::empty();
    disk.store("tok-1");
    assert_eq!(disk.file.as_deref(), Some("{\n  \"access_token\": \"tok-1\"\n}"));
    let credential = load_token(disk.read()).unwrap();
    assert_eq!(credential.access_token, "tok-1");
}

#[test]
fn second_store_replaces_the_first() {
    let mut disk = Disk::empty();
    disk.store("tok-1");
    disk.store("tok-2");
    let credential = load_token(disk.read()).unwrap();
    assert_eq!(credential.access_token, "tok-2");
    assert!(!disk.file.unwrap().contains("tok-1"));
}

#[test]
fn tokens_with_quotes_and_line_breaks_come_back_unchanged() {
    for token in ["a\"b", "back\\slash", "line\nbreak", "schlüssel-🔑", " "] {
        let mut disk = Disk::empty();
        disk.store(token);
        assert_eq!(load_token(disk.read()).unwrap().access_token, token);
    }
}

#[test]
fn load_without_a_file_is_not_found() {
    let error = load_token(Disk::empty().read()).unwrap_err();
    assert_eq!(error, StoreError::NotFound);
    assert_eq!(load_token(FileRead::Missing).unwrap_err(), StoreError::NotFound);
}

#[test]
fn load_of_a_file_with_other_content_is_a_schema_error() {
    for text in ["", "not json", "[]", "{}", "{\"access_token\": 7}", "{\"token\": \"x\"}"] {
        let disk = Disk { directory: true, file: Some(text.to_string()) };
        assert_eq!(load_token(disk.read()).unwrap_err(), StoreError::Schema, "{:?}", text);
    }
}

#[test]
fn load_of_text_that_is_no_credential_is_a_schema_error() {
    assert_eq!(load_token(FileRead::Text(None)).unwrap_err(), StoreError::Schema);
}

#[test]
fn load_of_an_unreadable_file_is_an_io_error() {
    assert_eq!(load_token(FileRead::Unreadable).unwrap_err(), StoreError::Io);
}

#[test]
fn store_creates_the_directory_only_if_it_is_absent() {
    let session = StoreSession::new("tok");
    assert_eq!(session.action(), StoreAction::ProbeDirectory);
    let (session, action) = store_token(session, StoreEvent::DirectoryProbed { exists: true });
    assert_eq!(action, StoreAction::Write);
    assert_eq!(session.phase(), StorePhase::Writing);

    let session = StoreSession::new("tok");
    let (session, action) = store_token(session, StoreEvent::DirectoryProbed { exists: false });
    assert_eq!(action, StoreAction::CreateDirectory);
    let (session, action) = store_token(session, StoreEvent::DirectoryCreated { ok: true });
    assert_eq!(action, StoreAction::Write);
    assert_eq!(session.outcome(), None);
    let (session, action) = store_token(session, StoreEvent::Written { ok: true });
    assert_eq!(action, StoreAction::Stop);
    assert_eq!(session.phase(), StorePhase::Stored);
    assert_eq!(session.outcome(), Some(Ok(())));
}

#[test]
fn store_fails_when_the_directory_cannot_be_created() {
    let session = StoreSession::new("tok");
    let (session, _) = store_token(session, StoreEvent::DirectoryProbed { exists: false });
    let (session, action) = store_token(session, StoreEvent::DirectoryCreated { ok: false });
    assert_eq!(action, StoreAction::Stop);
    assert_eq!(session.outcome(), Some(Err(StoreError::Io)));
}

#[test]
fn store_fails_when_the_file_cannot_be_written() {
    let session = StoreSession::new("tok");
    let (session, _) = store_token(session, StoreEvent::DirectoryProbed { exists: true });
    let (session, action) = store_token(session, StoreEvent::Written { ok: false });
    assert_eq!(action, StoreAction::Stop);
    assert_eq!(session.phase(), StorePhase::Failed);
    assert_eq!(session.outcome(), Some(Err(StoreError::Io)));
}

#[test]
fn store_ignores_events_it_does_not_wait_for() {
    let session = StoreSession::new("tok");
    let (session, action) = store_token(session, StoreEvent::Written { ok: true });
    assert_eq!(action, StoreAction::ProbeDirectory);
    let (session, action) = store_token(session, StoreEvent::DirectoryCreated { ok: true });
    assert_eq!(action, StoreAction::ProbeDirectory);
    assert_eq!(session.phase(), StorePhase::ProbingDirectory);
    assert_eq!(session.record().access_token, "tok");
}

#[test]
fn credential_file_is_below_the_home_directory() {
    let home = PathBuf::from("/home/alice");
    assert_eq!(
        credential_file_in(&home),
        PathBuf::from("/home/alice").join(".hop").join("config.json")
    );
    assert_ne!(credential_file_in(&home), home);
}

#[test]
fn credential_file_follows_the_home_directory_lookup() {
    assert_eq!(credential_file_for(None), None);
    assert_eq!(
        credential_file_for(Some(PathBuf::from("/home/alice"))),
        Some(PathBuf::from("/home/alice").join(".hop").join("config.json"))
    );
}

#[test]
fn credential_file_of_the_current_user() {
    if let Some(path) = get_config_path() {
        assert!(path.ends_with(".hop/config.json"));
    }
}

#[test]
fn store_error_messages() {
    assert!(!StoreError::NotFound.message().is_empty());
    assert!(!StoreError::Schema.message().is_empty());
    assert!(!StoreError::Io.message().is_empty());
}
