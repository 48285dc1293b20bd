use std::collections::HashMap;

use github_backup::digest::{to_hex, Hasher};
use github_backup::engines::git::{GitAction, GitEvent, GitStage};
use github_backup::engines::http_file::{HttpFileAction, HttpFileEvent};
use github_backup::engines::{BackupState, GitEngine, HttpFileEngine};
use github_backup::entities::{Credentials, GitRepo, HttpFile};
use github_backup::errors::ErrorKind;
use github_backup::time::Timestamp;
use github_backup::Error;
use sha2::Digest;

const ZEROS_1024: &str = "5f70bf18a086007016e948b04aed3b82103a36bea41755b6cddfaf10ace3c6ef";

/// A file system and a server that exist in memory only.
struct World {
    files: HashMap<String, Vec<u8>>,
    modified: HashMap<String, Timestamp>,
    body: Vec<u8>,
    chunk: usize,
    status: u16,
    requests: usize,
    cancel_after_chunks: Option<usize>,
    fail_writes: bool,
}

impl World {
    fn new(body: Vec<u8>) -> World {
        World {
            files: HashMap::new(),
            modified: HashMap::new(),
            body,
            chunk: 256,
            status: 200,
            requests: 0,
            cancel_after_chunks: None,
            fail_writes: false,
        }
    }

    fn run(&mut self, entity: &HttpFile, target: &str) -> Result<BackupState, Error> {
        let mut backup = HttpFileEngine::new().backup(entity, target);
        let mut event = HttpFileEvent::Started;
        let mut offset = 0;
        let mut chunks = 0;
        let mut open: Option<String> = None;
        loop {
            let cancelled = self.cancel_after_chunks.map_or(false, |n| chunks > n);
            match backup.step(event, cancelled) {
                HttpFileAction::EnsureParent(_) => event = HttpFileEvent::Completed,
                HttpFileAction::StatTarget(path) => {
                    event = HttpFileEvent::Modified(self.modified.get(&path).copied())
                }
                HttpFileAction::Send(request) => {
                    assert_eq!(request.url, entity.url);
                    self.requests += 1;
                    event = HttpFileEvent::Response(self.status);
                }
                HttpFileAction::ReadErrorBody => event = HttpFileEvent::Body("denied".to_string()),
                HttpFileAction::CreateTemp(path) => {
                    self.files.insert(path.clone(), Vec::new());
                    open = Some(path);
                    event = HttpFileEvent::Completed;
                }
                HttpFileAction::ReadChunk => {
                    if offset < self.body.len() {
                        let end = (offset + self.chunk).min(self.body.len());
                        event = HttpFileEvent::Chunk(self.body[offset..end].to_vec());
                        offset = end;
                        chunks += 1;
                    } else {
                        event = HttpFileEvent::EndOfBody;
                    }
                }
                HttpFileAction::Write(bytes) => {
                    if self.fail_writes {
                        event = HttpFileEvent::Failed("disk full".to_string());
                    } else {
                        self.files.get_mut(open.as_ref().unwrap()).unwrap().extend_from_slice(&bytes);
                        event = HttpFileEvent::Completed;
                    }
                }
                HttpFileAction::Discard(path) => {
                    open = None;
                    self.files.remove(&path);
                    event = HttpFileEvent::Completed;
                }
                HttpFileAction::ReadSidecar(path) => {
                    open = None;
                    event = HttpFileEvent::Sidecar(
                        self.files.get(&path).map(|b| String::from_utf8(b.clone()).unwrap().trim().to_string()),
                    );
                }
                HttpFileAction::RemoveTemp(path) => {
                    self.files.remove(&path);
                    event = HttpFileEvent::Completed;
                }
                HttpFileAction::CheckTarget(path) => event = HttpFileEvent::Exists(self.files.contains_key(&path)),
                HttpFileAction::RemoveTarget(path) => {
                    self.files.remove(&path);
                    event = HttpFileEvent::Completed;
                }
                HttpFileAction::Rename { from, to } => {
                    let content = self.files.remove(&from).unwrap();
                    self.files.insert(to.clone(), content);
                    self.modified.insert(to, Timestamp::new(2_000_000_000, 0));
                    event = HttpFileEvent::Completed;
                }
                HttpFileAction::WriteSidecar { path, content } => {
                    self.files.insert(path, content.into_bytes());
                    event = HttpFileEvent::Completed;
                }
                HttpFileAction::Done(outcome) => {
                    assert!(backup.is_finished());
                    return outcome;
                }
            }
        }
    }
}

fn entity() -> HttpFile {
    HttpFile::new("test.bin", "https://example.com/test-file")
}

#[test]
fn test_sha256_of_known_inputs() {
    let mut hasher = Hasher::new();
    assert_eq!(hasher.hex(), "e3b0c44298fc1c149afbf4c8996fb92427ae41e4649b934ca495991b7852b855");
    hasher.update(b"a");
    hasher.update(b"bc");
    assert_eq!(hasher.hex(), "ba7816bf8f01cfea414140de5dae2223b00361a396177a9cb410ff61f20015ad");
    let mut zeros = Hasher::new();
    zeros.update(&vec![0u8; 1024]);
    assert_eq!(zeros.hex(), ZEROS_1024);
    assert_eq!(zeros.hex(), to_hex(&sha2::Sha256::digest(vec![0u8; 1024]).to_vec()));
    assert_eq!(to_hex(&vec![0x00, 0x0f, 0xa0, 0xff]), "000fa0ff");
    assert_eq!(to_hex(&vec![]), "");
}

#[test]
fn test_timestamps() {
    assert_eq!(Timestamp::new(1431648000, 0).to_iso8601().as_deref(), Some("2015-05-15T00:00:00"));
    assert_eq!(Timestamp::new(0, 999_999_999).to_iso8601().as_deref(), Some("1970-01-01T00:00:00"));
    assert_eq!(Timestamp::new(-1, 0).to_iso8601().as_deref(), Some("1969-12-31T23:59:59"));
    assert_eq!(Timestamp::new(i64::MAX, 0).to_iso8601(), None);
    assert!(Timestamp::new(5, 0).is_not_before(&Timestamp::new(5, 0)));
    assert!(Timestamp::new(5, 1).is_not_before(&Timestamp::new(5, 0)));
    assert!(Timestamp::new(6, 0).is_not_before(&Timestamp::new(5, 999)));
    assert!(!Timestamp::new(5, 0).is_not_before(&Timestamp::new(5, 1)));
    assert!(!Timestamp::new(-7, 0).is_not_before(&Timestamp::new(5, 1)));
}

#[test]
fn http_file_content_identical_second_run() {
    let mut world = World::new(vec![0u8; 1024]);
    let state = world.run(&entity(), "/backups/test.bin").expect("backup to succeed");
    assert_eq!(state, BackupState::New(Some(format!("at sha256:{}", ZEROS_1024))));
    assert_eq!(world.files.get("/backups/test.bin").map(|b| b.len()), Some(1024));
    assert_eq!(world.files.get("/backups/test.bin.sha256"), Some(&ZEROS_1024.as_bytes().to_vec()));
    assert!(!world.files.contains_key("/backups/test.bin.tmp"));

    let state = world.run(&entity(), "/backups/test.bin").expect("backup to succeed");
    assert_eq!(state, BackupState::Unchanged(Some(format!("at sha256@{}", ZEROS_1024))));
    assert!(!world.files.contains_key("/backups/test.bin.tmp"));
    assert_eq!(world.files.get("/backups/test.bin").map(|b| b.len()), Some(1024));
    assert_eq!(world.requests, 2);
}

#[test]
fn http_file_changed_content_is_updated() {
    let mut world = World::new(vec![0u8; 1024]);
    world.run(&entity(), "/backups/test.bin").unwrap();
    world.body = b"something else".to_vec();
    let h = to_hex(&sha2::Sha256::digest(b"something else").to_vec());
    let state = world.run(&entity(), "/backups/test.bin").unwrap();
    assert_eq!(state, BackupState::Updated(Some(format!("at sha256:{}", h))));
    assert_eq!(world.files.get("/backups/test.bin"), Some(&b"something else".to_vec()));
    assert_eq!(world.files.get("/backups/test.bin.sha256"), Some(&h.into_bytes()));
    assert!(!world.files.contains_key("/backups/test.bin.tmp"));
}

#[test]
fn http_file_cancel_mid_stream() {
    let mut world = World::new(vec![7u8; 2 * 1024 * 1024]);
    world.chunk = 64 * 1024;
    world.cancel_after_chunks = Some(1);
    let state = world.run(&entity(), "/backups/big.bin").unwrap();
    assert_eq!(state, BackupState::Skipped);
    assert!(!world.files.contains_key("/backups/big.bin"));
    assert!(!world.files.contains_key("/backups/big.bin.tmp"));
    assert!(!world.files.contains_key("/backups/big.bin.sha256"));
}

#[test]
fn http_file_cancel_keeps_what_was_there() {
    let mut world = World::new(vec![1u8; 1000]);
    world.run(&entity(), "/backups/test.bin").unwrap();
    let before = world.files.clone();
    world.body = vec![2u8; 1000];
    world.cancel_after_chunks = Some(2);
    assert_eq!(world.run(&entity(), "/backups/test.bin").unwrap(), BackupState::Skipped);
    assert_eq!(world.files, before);
    world.cancel_after_chunks = Some(0);
    assert_eq!(world.run(&entity(), "/backups/test.bin").unwrap(), BackupState::Skipped);
    assert_eq!(world.files, before);
}

#[test]
fn http_file_cancelled_before_the_request() {
    let mut backup = HttpFileEngine::new().backup(&entity(), "/b/test.bin");
    assert!(matches!(backup.step(HttpFileEvent::Started, false), HttpFileAction::EnsureParent(p) if p == "/b/test.bin"));
    assert!(matches!(
        backup.step(HttpFileEvent::Completed, true),
        HttpFileAction::Done(Ok(BackupState::Skipped))
    ));

    let mut backup = HttpFileEngine::new().backup(&entity(), "/b/test.bin");
    backup.step(HttpFileEvent::Started, false);
    assert!(matches!(backup.step(HttpFileEvent::Completed, false), HttpFileAction::Send(_)));
    assert!(matches!(
        backup.step(HttpFileEvent::Response(200), true),
        HttpFileAction::Done(Ok(BackupState::Skipped))
    ));
}

#[test]
fn test_backup_with_last_modified() {
    let mut world = World::new(vec![0u8; 1024]);
    let last_modified = Timestamp::new(2_100_000_000, 0);
    let entity = entity().with_last_modified(Some(last_modified));
    let state = world.run(&entity, "/backups/test.bin").expect("backup to succeed");
    assert_eq!(state, BackupState::New(Some(format!("at {}", last_modified.to_iso8601().unwrap()))));
    assert_eq!(state, BackupState::New(Some("at 2036-07-18T13:20:00".to_string())));
    assert!(world.files.contains_key("/backups/test.bin"));
    assert_eq!(world.requests, 1);

    let entity_old = HttpFile { last_modified: Some(Timestamp::new(1_900_000_000, 0)), ..entity };
    let state = world.run(&entity_old, "/backups/test.bin").expect("backup to succeed");
    assert_eq!(state, BackupState::Unchanged(Some("since 2033-05-18T03:33:20".to_string())));
    assert_eq!(world.requests, 1);

    let entity_same = HttpFile { last_modified: Some(Timestamp::new(2_000_000_000, 0)), ..entity_old };
    let state = world.run(&entity_same, "/backups/test.bin").unwrap();
    assert_eq!(state, BackupState::Unchanged(Some("since 2033-05-18T03:33:20".to_string())));
    assert_eq!(world.requests, 1);
}

#[test]
fn http_file_request_shape() {
    let entity = HttpFile::new("a", "https://example.com/a")
        .with_content_type(Some("application/octet-stream".to_string()))
        .with_credentials(Credentials::Token("t".to_string()));
    let mut backup = HttpFileEngine::new().backup(&entity, "/b/a");
    backup.step(HttpFileEvent::Started, false);
    match backup.step(HttpFileEvent::Completed, false) {
        HttpFileAction::Send(request) => {
            assert_eq!(request.url, "https://example.com/a");
            assert_eq!(
                request.headers,
                vec![
                    ("User-Agent".to_string(), "SierraSoftworks/github-backup".to_string()),
                    ("Accept".to_string(), "application/octet-stream".to_string()),
                ]
            );
            assert!(request.credentials == Credentials::Token("t".to_string()));
        }
        _ => panic!("expected the request"),
    }
}

#[test]
fn http_file_errors() {
    let mut world = World::new(vec![0u8; 10]);
    world.status = 404;
    let e = world.run(&entity(), "/b/test.bin").unwrap_err();
    assert_eq!(e.kind, ErrorKind::User);
    assert_eq!(
        e.to_string(),
        "Got an HTTP 404 status code when trying to fetch 'https://example.com/test-file'."
    );
    assert_eq!(e.cause.as_deref(), Some("denied"));
    assert_eq!(e.status_code, Some(404));
    assert!(world.files.is_empty());

    let mut world = World::new(vec![0u8; 10]);
    world.fail_writes = true;
    let e = world.run(&entity(), "/b/test.bin").unwrap_err();
    assert!(e.is_user());
    assert_eq!(e.to_string(), "Failed to write to temporary backup file '/b/test.bin.tmp'.");
    assert_eq!(e.cause.as_deref(), Some("disk full"));
    assert!(world.files.is_empty());

    let failing = |events: Vec<HttpFileEvent>| -> Error {
        let mut backup = HttpFileEngine::new().backup(&entity(), "/b/test.bin");
        let mut last = None;
        for event in events {
            last = Some(backup.step(event, false));
        }
        match last {
            Some(HttpFileAction::Done(Err(e))) => e,
            _ => panic!("expected the backup to fail"),
        }
    };
    let boom = || HttpFileEvent::Failed("boom".to_string());
    let done = || HttpFileEvent::Completed;
    let e = failing(vec![HttpFileEvent::Started, boom()]);
    assert_eq!(e.to_string(), "Unable to create the backup directory for '/b/test.bin'");
    let e = failing(vec![HttpFileEvent::Started, done(), boom()]);
    assert_eq!(e.kind, ErrorKind::System);
    assert_eq!(e.to_string(), "Unable to fetch 'https://example.com/test-file'.");
    let to_temp = || vec![HttpFileEvent::Started, done(), HttpFileEvent::Response(200)];
    let mut events = to_temp();
    events.push(boom());
    assert_eq!(failing(events).to_string(), "Unable to create temporary backup file '/b/test.bin.tmp'.");
    let mut events = to_temp();
    events.extend([done(), boom()]);
    assert_eq!(failing(events).to_string(), "Failed to read the response from 'https://example.com/test-file'.");
    let to_sidecar = || {
        let mut events = to_temp();
        events.extend([done(), HttpFileEvent::EndOfBody]);
        events
    };
    let empty = "e3b0c44298fc1c149afbf4c8996fb92427ae41e4649b934ca495991b7852b855";
    let mut events = to_sidecar();
    events.extend([HttpFileEvent::Sidecar(Some(empty.to_string())), boom()]);
    assert_eq!(
        failing(events).to_string(),
        "Unable to remove temporary backup file '/b/test.bin.tmp' after verifying that it is a duplicate of the existing file."
    );
    let mut events = to_sidecar();
    events.extend([HttpFileEvent::Sidecar(None), HttpFileEvent::Exists(true), boom()]);
    assert_eq!(
        failing(events).to_string(),
        "Unable to remove original backup file '/b/test.bin' prior to replacement with new file."
    );
    let mut events = to_sidecar();
    events.extend([HttpFileEvent::Sidecar(None), HttpFileEvent::Exists(false), boom()]);
    assert_eq!(
        failing(events).to_string(),
        "Unable to move temporary backup file '/b/test.bin.tmp' to final location '/b/test.bin'."
    );
    let mut events = to_sidecar();
    events.extend([HttpFileEvent::Sidecar(None), HttpFileEvent::Exists(false), done(), boom()]);
    assert_eq!(
        failing(events).to_string(),
        "Unable to write SHA-256 checksum file for backup file '/b/test.bin'."
    );
    let e = failing(vec![HttpFileEvent::EndOfBody]);
    assert_eq!(e.kind, ErrorKind::System);
    let e = failing(vec![HttpFileEvent::Started, done(), HttpFileEvent::Response(200), HttpFileEvent::Exists(true)]);
    assert_eq!(e.kind, ErrorKind::System);
}

fn mirror(repo: &GitRepo, exists: bool, result: GitEvent) -> (Result<BackupState, Error>, bool) {
    let mut backup = GitEngine.backup(repo, "/backups/o/r");
    assert!(matches!(backup.step(GitEvent::Started), GitAction::EnsureDirectory(p) if p == "/backups/o/r"));
    assert!(matches!(backup.step(GitEvent::Completed), GitAction::Probe(p) if p == "/backups/o/r"));
    let cloning = match backup.step(GitEvent::Exists(exists)) {
        GitAction::Clone(order) => {
            assert_eq!(order.url, repo.clone_url);
            assert_eq!(order.target, "/backups/o/r");
            true
        }
        GitAction::Fetch(order) => {
            assert_eq!(order.url, repo.clone_url);
            false
        }
        _ => panic!("expected a clone or a fetch"),
    };
    match backup.step(result) {
        GitAction::Done(outcome) => {
            assert!(backup.is_finished());
            (outcome, cloning)
        }
        _ => panic!("expected the backup to end"),
    }
}

#[test]
fn git_repo_clone_then_fetch() {
    let repo = GitRepo::new("o/r", "https://example.com/o/r.git", None);
    let sha = "0123456789abcdef0123456789abcdef01234567";
    let (first, cloned) = mirror(&repo, false, GitEvent::Cloned(sha.to_string()));
    assert!(cloned);
    assert_eq!(first.unwrap(), BackupState::New(Some(format!("at {}", sha))));
    let (second, cloned) =
        mirror(&repo, true, GitEvent::Fetched { before: Some(sha.to_string()), head: sha.to_string() });
    assert!(!cloned);
    assert_eq!(second.unwrap(), BackupState::Unchanged(Some(format!("at {}", sha))));
    let newer = "89abcdef0123456789abcdef0123456789abcdef";
    let (third, _) =
        mirror(&repo, true, GitEvent::Fetched { before: Some(sha.to_string()), head: newer.to_string() });
    assert_eq!(third.unwrap(), BackupState::Updated(Some(newer.to_string())));
    let (fourth, _) = mirror(&repo, true, GitEvent::Fetched { before: None, head: newer.to_string() });
    assert_eq!(fourth.unwrap(), BackupState::Updated(Some(newer.to_string())));
}

#[test]
fn git_orders() {
    let repo = GitRepo::new("o/r", "https://example.com/o/r.git", None)
        .with_credentials(Credentials::Token("t0ken".to_string()));
    let mut backup = GitEngine.backup(&repo, "/b/o/r");
    backup.step(GitEvent::Started);
    backup.step(GitEvent::Completed);
    match backup.step(GitEvent::Exists(true)) {
        GitAction::Fetch(order) => {
            assert_eq!(order.account, Some(("t0ken".to_string(), String::new())));
            assert_eq!(order.refspecs, vec!["+refs/heads/*:refs/remotes/origin/*".to_string()]);
            assert_eq!(order.committer_name, "github-backup");
            assert_eq!(order.committer_email, "github-backup@sierrasoftworks.github.io");
        }
        _ => panic!("expected a fetch"),
    }
    let repo = GitRepo::new("o/r", "https://example.com/o/r.git", Some(vec!["+refs/*:refs/*".to_string()]));
    let mut backup = GitEngine.backup(&repo, "/b/o/r");
    backup.step(GitEvent::Started);
    backup.step(GitEvent::Completed);
    match backup.step(GitEvent::Exists(false)) {
        GitAction::Clone(order) => {
            assert_eq!(order.account, None);
            assert_eq!(order.refspecs, vec!["+refs/*:refs/*".to_string()]);
        }
        _ => panic!("expected a clone"),
    }
    assert_eq!(GitEngine.to_string(), "git");
}

#[test]
fn git_errors() {
    let repo = GitRepo::new("o/r", "https://example.com/o/r.git", None);
    let broke = |exists: bool, stage: GitStage| {
        mirror(&repo, exists, GitEvent::Broke { stage, cause: "why".to_string() }).0.unwrap_err()
    };
    let e = broke(false, GitStage::Prepare);
    assert_eq!(e.kind, ErrorKind::System);
    assert_eq!(e.to_string(), "Failed to clone the repository https://example.com/o/r.git.");
    assert_eq!(e.cause.as_deref(), Some("why"));
    let e = broke(false, GitStage::Transfer);
    assert_eq!(e.kind, ErrorKind::System);
    assert_eq!(e.to_string(), "Unable to clone remote repository 'https://example.com/o/r.git'");
    let e = broke(true, GitStage::Transfer);
    assert_eq!(e.kind, ErrorKind::User);
    assert_eq!(e.to_string(), "Unable to fetch from remote git repository 'https://example.com/o/r.git'");
    let e = broke(false, GitStage::Head);
    assert_eq!(e.kind, ErrorKind::User);
    assert!(e.to_string().contains("did not have a valid HEAD"));
    let e = broke(true, GitStage::Open);
    assert_eq!(e.to_string(), "Failed to open the repository 'https://example.com/o/r.git' at '/backups/o/r'");
    for stage in [GitStage::FindRemote, GitStage::ConfigureRemote, GitStage::Connect, GitStage::PrepareFetch] {
        assert_eq!(broke(true, stage).kind, ErrorKind::User);
    }
    assert_eq!(broke(true, GitStage::Configure).kind, ErrorKind::System);

    let mut backup = GitEngine.backup(&repo, "/b/o/r");
    backup.step(GitEvent::Started);
    match backup.step(GitEvent::Failed("denied".to_string())) {
        GitAction::Done(Err(e)) => {
            assert!(e.is_user());
            assert_eq!(e.to_string(), "Unable to create backup directory '/b/o/r'");
        }
        _ => panic!("expected an error"),
    }
    let mut backup = GitEngine.backup(&repo, "/b/o/r");
    assert!(matches!(backup.step(GitEvent::Exists(true)), GitAction::Done(Err(_))));
}
