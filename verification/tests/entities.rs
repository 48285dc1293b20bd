use github_backup::engines::BackupState;
use github_backup::entities::{BackupEntity, Credentials, GitRepo, HttpFile, Metadata};
use github_backup::filter::{Filter, FilterValue, Filterable, Number};
use github_backup::policy::{default_backup_path, BackupPolicy};
use github_backup::time::Timestamp;

#[test]
fn test_entity_implementation() {
    let repo = GitRepo::new("org/repo", "https://github.com/org/repo.git", None)
        .with_credentials(Credentials::Token("token".to_string()))
        .with_metadata("repo.name", "repo".into())
        .with_metadata("repo.archived", true.into())
        .with_metadata("repo.public", true.into())
        .with_metadata("repo.fork", false.into());

    assert_eq!(repo.name(), "org/repo");
    assert_eq!(repo.get("repo.archived"), true.into());
    assert_eq!(repo.get("repo.public"), true.into());
    assert_eq!(repo.get("repo.fork"), false.into());
}

#[test]
fn test_entity() {
    let entity = HttpFile::new("test", "http://example.com")
        .with_credentials(Credentials::Token("test".to_string()))
        .with_metadata("test", "test".into())
        .with_metadata("test2", 1u32.into());

    assert_eq!(entity.name, "test");
    assert_eq!(entity.url, "http://example.com");
    assert!(entity.credentials == Credentials::Token("test".to_string()));

    assert_eq!(entity.get("test"), FilterValue::String("test".to_string()));
    assert_eq!(entity.get("test2"), FilterValue::Number(Number::from_u64(1)));
}

#[test]
fn test_entity_defaults() {
    let repo = GitRepo::new("o/r", "https://example.com/o/r.git", Some(vec!["+refs/*:refs/*".to_string()]));
    assert_eq!(repo.target_path(), "o/r");
    assert_eq!(repo.to_string(), "o/r");
    assert!(repo.credentials == Credentials::Anonymous);
    assert_eq!(repo.refspecs, Some(vec!["+refs/*:refs/*".to_string()]));
    assert_eq!(repo.get("anything"), FilterValue::Null);

    let file = HttpFile::new("o/r/v1/a.bin", "https://example.com/a.bin")
        .with_content_type(Some("application/octet-stream".to_string()))
        .with_last_modified(Some(Timestamp::new(10, 20)));
    assert_eq!(file.name(), "o/r/v1/a.bin");
    assert_eq!(file.target_path(), "o/r/v1/a.bin");
    assert_eq!(file.content_type.as_deref(), Some("application/octet-stream"));
    assert_eq!(file.last_modified, Some(Timestamp { seconds: 10, nanos: 20 }));
}

#[test]
fn test_metadata_ignores_case() {
    let mut bag = Metadata::new();
    assert_eq!(bag.get("repo.name"), FilterValue::Null);
    bag.insert("Repo.Name", "first".into());
    assert_eq!(bag.get("repo.name"), "first".into());
    assert_eq!(bag.get("REPO.NAME"), "first".into());
    bag.insert("repo.NAME", "second".into());
    assert_eq!(bag.get("Repo.Name"), "second".into());
    bag.insert("straße", true.into());
    assert_eq!(bag.get("STRASSE"), true.into());
    assert_eq!(bag.get("repo.names"), FilterValue::Null);
    let copy = bag.duplicate();
    assert_eq!(copy.get("repo.name"), "second".into());
    assert_eq!(Metadata::default().get("x"), FilterValue::Null);
}

#[test]
fn test_credentials() {
    let none = Credentials::Anonymous;
    let token = Credentials::Token("token".to_string());
    let pair = Credentials::UsernamePassword { username: "admin".to_string(), password: "pass".to_string() };
    assert_eq!(none.to_string(), "No credentials");
    assert_eq!(token.to_string(), "Token");
    assert_eq!(pair.to_string(), "Username+Password");
    assert!(Credentials::default() == Credentials::Anonymous);
    assert_eq!(none.account(), None);
    assert_eq!(token.account(), Some(("token".to_string(), String::new())));
    assert_eq!(pair.account(), Some(("admin".to_string(), "pass".to_string())));
    assert!(none.for_download() == Credentials::Anonymous);
    assert!(
        token.for_download()
            == Credentials::UsernamePassword { username: "token".to_string(), password: String::new() }
    );
    assert!(pair.for_download() == pair);
    assert!(pair.duplicate() == pair);
}

#[test]
fn test_backup_state_display() {
    assert_eq!(BackupState::Skipped.to_string(), "skipped");
    assert_eq!(BackupState::New(Some("at abc".to_string())).to_string(), "new at abc");
    assert_eq!(BackupState::Updated(Some("abc".to_string())).to_string(), "updated abc");
    assert_eq!(BackupState::Unchanged(Some("at abc".to_string())).to_string(), "unchanged at abc");
    assert_eq!(BackupState::New(None).to_string(), "new");
    assert_eq!(BackupState::Updated(None).to_string(), "updated");
    assert_eq!(BackupState::Unchanged(None).to_string(), "unchanged");
}

#[test]
fn test_deserialize() {
    let policy = BackupPolicy {
        kind: "backup".to_string(),
        from: "source".to_string(),
        to: "/tmp/backup".to_string(),
        credentials: Credentials::UsernamePassword {
            username: "admin".to_string(),
            password: "pass".to_string(),
        },
        filter: Filter::new("repo.name == \"my-repo\"").unwrap(),
        properties: vec![("key".to_string(), "value".to_string())],
    };
    assert_eq!(policy.kind, "backup");
    assert_eq!(policy.from, "source");
    assert_eq!(policy.to, "/tmp/backup");
    assert!(
        policy.credentials
            == Credentials::UsernamePassword { username: "admin".to_string(), password: "pass".to_string() }
    );
    assert_eq!(policy.filter.raw(), "repo.name == \"my-repo\"");
    assert_eq!(policy.properties, vec![("key".to_string(), "value".to_string())]);
    assert_eq!(policy.property("key"), Some("value"));
    assert_eq!(policy.property("Key"), None);
    assert_eq!(policy.to_string(), "backup/source");
    assert_eq!(default_backup_path(), "./backups");
}
