use std::collections::VecDeque;

use github_backup::config::{Config, Pause};
use github_backup::engines::{BackupState, GitEngine};
use github_backup::entities::{BackupEntity, Credentials, GitRepo};
use github_backup::errors::user;
use github_backup::filter::Filter;
use github_backup::pairing::{NextStep, Pairing, PairingEvent, SummaryStatistics};
use github_backup::policy::BackupPolicy;
use github_backup::sources::{BackupSource, GitHubReleasesSource};
use github_backup::time::Timestamp;
use github_backup::Error;

struct MockRepoSource;

impl BackupSource for MockRepoSource {
    fn kind(&self) -> &str {
        "mock"
    }

    fn validate(&self, _policy: &BackupPolicy) -> Result<(), Error> {
        Ok(())
    }
}

fn policy(filter: &str) -> BackupPolicy {
    BackupPolicy {
        kind: "mock".to_string(),
        from: "mock".to_string(),
        to: "/tmp".to_string(),
        credentials: Credentials::Anonymous,
        filter: Filter::new(filter).unwrap(),
        properties: vec![],
    }
}

fn repos() -> Vec<Result<GitRepo, Error>> {
    (0..30)
        .map(|i| {
            Ok(GitRepo::new(&format!("octocat/repo-{}", i), "https://example.com/repo.git", None)
                .with_metadata("repo.fork", (i % 2 == 0).into())
                .with_metadata("repo.empty", (i % 3 == 0).into())
                .with_metadata("repo.stargazers", (i as u32).into()))
        })
        .collect()
}

struct Outcome {
    events: Vec<Result<(GitRepo, BackupState), Error>>,
    spawned: usize,
    most_in_flight: usize,
    stats: SummaryStatistics,
}

fn drive<S: BackupSource>(
    pairing: &Pairing<S, GitEngine>,
    policy: &BackupPolicy,
    items: Vec<Result<GitRepo, Error>>,
    cancel_after: Option<usize>,
) -> Outcome {
    let mut items: VecDeque<_> = items.into();
    let mut tasks: VecDeque<GitRepo> = VecDeque::new();
    let mut out = Outcome { events: vec![], spawned: 0, most_in_flight: 0, stats: SummaryStatistics::new(Timestamp::new(0, 0)) };
    let mut pulled = 0;
    let mut run = pairing.run::<GitRepo>(Timestamp::new(100, 0));
    let mut action = run.step(&pairing.source, policy, PairingEvent::Started, false);
    loop {
        let cancelled = cancel_after.map_or(false, |n| pulled > n);
        if let Some(event) = action.emit {
            out.events.push(event);
        }
        let event = match action.next {
            NextStep::Finish => break,
            NextStep::Resume => {
                action = run.resume(policy, cancelled);
                continue;
            }
            NextStep::AwaitTask => {
                let entity = tasks.pop_front().expect("a task to wait for");
                let name = entity.name.clone();
                PairingEvent::TaskFinished(Ok((entity, BackupState::New(Some(name)))))
            }
            NextStep::Spawn(entity) => {
                tasks.push_back(entity);
                out.spawned += 1;
                out.most_in_flight = out.most_in_flight.max(tasks.len());
                match items.pop_front() {
                    Some(item) => {
                        pulled += 1;
                        PairingEvent::Item(item)
                    }
                    None => PairingEvent::SourceEnded,
                }
            }
            NextStep::Pull => match items.pop_front() {
                Some(item) => {
                    pulled += 1;
                    PairingEvent::Item(item)
                }
                None => PairingEvent::SourceEnded,
            },
        };
        let cancelled = cancel_after.map_or(false, |n| pulled > n);
        action = run.step(&pairing.source, policy, event, cancelled);
    }
    assert!(tasks.is_empty());
    out.stats = run.finish(Timestamp::new(160, 500));
    out
}

fn count_new(outcome: &Outcome) -> usize {
    outcome
        .events
        .iter()
        .filter(|e| match e {
            Ok((entity, BackupState::New(name))) => {
                assert_eq!(name.as_deref(), Some(entity.name.as_str()));
                true
            }
            _ => false,
        })
        .count()
}

#[test]
fn pairing_filter_skip() {
    let pairing = Pairing::new(MockRepoSource, GitEngine).with_concurrency_limit(5).with_dry_run(false);
    let outcome = drive(&pairing, &policy("!repo.fork && !repo.empty"), repos(), None);
    assert_eq!(outcome.events.len(), 30);
    let expected = (0..30).filter(|i| i % 2 != 0 && i % 3 != 0).count();
    assert_eq!(expected, 10);
    assert_eq!(count_new(&outcome), expected);
    assert_eq!(outcome.spawned, expected);
    let skipped = outcome.events.iter().filter(|e| matches!(e, Ok((_, BackupState::Skipped)))).count();
    assert_eq!(skipped, 30 - expected);
    assert!(outcome.most_in_flight <= 5);
    assert_eq!(outcome.stats.new, expected);
    assert_eq!(outcome.stats.skipped, 30 - expected);
    assert_eq!(outcome.stats.error, 0);
    assert_eq!(outcome.stats.to_string(), "New: 10, Unchanged: 0, Updated: 0, Skipped: 20, Error(s): 0");
    assert_eq!(outcome.stats.duration(), 60_000_000_500);
}

#[test]
fn filtering() {
    for (filter, matches) in [
        ("true", 30),
        ("false", 0),
        ("repo.fork", 15),
        ("!repo.fork", 15),
        ("repo.empty", 10),
        ("!repo.empty", 20),
        ("!repo.fork && !repo.empty", 10),
        ("repo.stargazers >= 1", 29),
        ("repo.stargazers > 27.5", 2),
        ("repo.template", 0),
        ("!repo.template", 30),
    ] {
        let pairing = Pairing::new(MockRepoSource, GitEngine).with_concurrency_limit(5).with_dry_run(false);
        let outcome = drive(&pairing, &policy(filter), repos(), None);
        assert_eq!(count_new(&outcome), matches, "{}", filter);
        assert_eq!(outcome.events.len(), 30);
        assert!(outcome.most_in_flight <= 5);
    }
}

#[test]
fn concurrency_ceiling() {
    for limit in [1usize, 2, 3, 10, 50] {
        let pairing = Pairing::new(MockRepoSource, GitEngine).with_concurrency_limit(limit);
        let outcome = drive(&pairing, &policy("true"), repos(), None);
        assert_eq!(outcome.most_in_flight, limit.min(30));
        assert_eq!(outcome.events.len(), 30);
        assert_eq!(count_new(&outcome), 30);
    }
}

#[test]
fn pairing_settings() {
    let pairing = Pairing::new(MockRepoSource, GitEngine);
    assert!(!pairing.dry_run);
    assert_eq!(pairing.concurrency_limit, 10);
    let pairing = pairing.with_concurrency_limit(0);
    assert_eq!(pairing.concurrency_limit, 10);
    let pairing = pairing.with_concurrency_limit(3).with_dry_run(true);
    assert_eq!(pairing.concurrency_limit, 3);
    assert!(pairing.dry_run);
}

#[test]
fn dry_run_skips_everything() {
    let pairing = Pairing::new(MockRepoSource, GitEngine).with_dry_run(true);
    let outcome = drive(&pairing, &policy("true"), repos(), None);
    assert_eq!(outcome.spawned, 0);
    assert_eq!(outcome.events.len(), 30);
    assert!(outcome.events.iter().all(|e| matches!(e, Ok((_, BackupState::Skipped)))));
    assert_eq!(outcome.stats.skipped, 30);
}

#[test]
fn errors_of_the_source_do_not_end_the_run() {
    let mut items = repos();
    items.insert(3, Err(user("page 2 failed".to_string(), "try again")));
    let pairing = Pairing::new(MockRepoSource, GitEngine).with_concurrency_limit(2);
    let outcome = drive(&pairing, &policy("true"), items, None);
    assert_eq!(outcome.events.len(), 31);
    assert_eq!(outcome.events.iter().filter(|e| e.is_err()).count(), 1);
    assert_eq!(count_new(&outcome), 30);
    assert_eq!(outcome.stats.error, 1);
    assert_eq!(outcome.stats.new, 30);
}

#[test]
fn cancelling_drains_what_is_running() {
    let pairing = Pairing::new(MockRepoSource, GitEngine).with_concurrency_limit(4);
    let outcome = drive(&pairing, &policy("true"), repos(), Some(6));
    assert_eq!(outcome.spawned, 6);
    assert_eq!(count_new(&outcome), 6);
    assert_eq!(outcome.events.len(), 6);
    assert!(outcome.most_in_flight <= 4);
}

#[test]
fn an_invalid_policy_emits_one_error() {
    let pairing = Pairing::new(GitHubReleasesSource::default(), GitEngine);
    let mut p = policy("true");
    p.kind = "github/release".to_string();
    p.from = "starred".to_string();
    let outcome = drive(&pairing, &p, repos(), None);
    assert_eq!(outcome.events.len(), 1);
    match &outcome.events[0] {
        Err(e) => assert_eq!(e.to_string(), "Your 'from' target 'starred' is not valid for 'kind' 'github/release'."),
        Ok(_) => panic!("expected an error"),
    }
    assert_eq!(outcome.stats.error, 1);
    assert_eq!(outcome.spawned, 0);
}

#[test]
fn summary_counts_every_event() {
    let mut stats = SummaryStatistics::new(Timestamp::new(5, 0));
    assert_eq!(stats.duration(), 0);
    stats.record_state(&BackupState::New(None));
    stats.record_state(&BackupState::Updated(None));
    stats.record_state(&BackupState::Updated(Some("x".to_string())));
    stats.record_state(&BackupState::Unchanged(None));
    stats.record_state(&BackupState::Skipped);
    stats.record_error();
    stats.record_error();
    assert_eq!((stats.new, stats.updated, stats.unchanged, stats.skipped, stats.error), (1, 2, 1, 1, 2));
    assert_eq!(stats.new + stats.updated + stats.unchanged + stats.skipped + stats.error, 7);
    stats.finish(Timestamp::new(4, 999_999_999));
    assert_eq!(stats.duration(), -1);
    assert_eq!(stats.to_string(), "New: 1, Unchanged: 1, Updated: 2, Skipped: 1, Error(s): 2");
}

#[test]
fn schedule_decisions() {
    let due = Timestamp::new(1_000, 0);
    assert_eq!(Config::pause(Some(due), Timestamp::new(999, 999_999_999), false), Pause::Sleep(500));
    assert_eq!(Config::pause(Some(due), Timestamp::new(1_000, 0), false), Pause::Run);
    assert_eq!(Config::pause(Some(due), Timestamp::new(2_000, 0), false), Pause::Run);
    assert_eq!(Config::pause(Some(due), Timestamp::new(2_000, 0), true), Pause::Stop);
    assert_eq!(Config::pause(Some(due), Timestamp::new(1, 0), true), Pause::Stop);
    assert_eq!(Config::pause(None, Timestamp::new(1, 0), false), Pause::Stop);
    assert!(Config::begins(false));
    assert!(!Config::begins(true));
}

#[test]
fn schedules() {
    let config = Config::new(Some("0 0 * * *"), vec![policy("true")]).ok().unwrap();
    assert_eq!(config.backups.len(), 1);
    assert_eq!(config.next_run(Timestamp::new(1431648000, 0)), Some(Timestamp::new(1431734400, 0)));
    assert_eq!(config.next_run(Timestamp::new(1431648001, 5)), Some(Timestamp::new(1431734400, 0)));
    let config = Config::new(Some("0 */5 * * *"), vec![]).ok().unwrap();
    assert_eq!(config.next_run(Timestamp::new(1431648000, 0)), Some(Timestamp::new(1431648000 + 5 * 3600, 0)));
    let config = Config::new(None, vec![]).ok().unwrap();
    assert_eq!(config.next_run(Timestamp::new(0, 0)), None);
    let e = Config::new(Some("every day"), vec![]).err().unwrap();
    assert!(e.is_user());
    assert_eq!(e.to_string(), "The schedule 'every day' is not a valid cron expression.");
}
