//! The pairing of a source with an engine: which entities are backed up,
//! how many at a time, and what is reported of each.
//!
//! The entities arrive from the network and the backups run as tasks, so
//! the pairing is a machine: whoever drives it pulls entities, spawns and
//! awaits tasks as it is told, hands every emitted event to its consumer
//! and comes back with what happened.
use vstd::prelude::*;
use crate::engines::BackupState;
use crate::entities::BackupEntity;
use crate::errors::Error;
use crate::filter::interpreter::properties_of;
use crate::policy::BackupPolicy;
use crate::sources::BackupSource;
use crate::text::{decimal_text, push_decimal};
use crate::time::Timestamp;

verus! {

/// A source and an engine, and how to run them together. A dry run backs
/// nothing up; at most `concurrency_limit` backups run at a time.
pub struct Pairing<S: BackupSource, T> {
    pub source: S,
    pub target: T,
    pub dry_run: bool,
    pub concurrency_limit: usize,
}

impl<S: BackupSource, T> Pairing<S, T> {
    /// The pairing of `source` with `target`: no dry run, and ten backups
    /// at a time.
    pub fn new(source: S, target: T) -> (pairing: Self)
        ensures
            pairing.source == source,
            pairing.target == target,
            !pairing.dry_run,
            pairing.concurrency_limit == 10,
    {
        Self { source, target, dry_run: false, concurrency_limit: 10 }
    }

    /// This pairing, as a dry run or not.
    pub fn with_dry_run(self, dry_run: bool) -> (pairing: Self)
        ensures
            pairing.dry_run == dry_run,
            pairing.source == self.source,
            pairing.target == self.target,
            pairing.concurrency_limit == self.concurrency_limit,
    {
        Self { dry_run, ..self }
    }

    /// This pairing with `concurrency_limit` backups at a time; zero
    /// leaves the limit as it is.
    pub fn with_concurrency_limit(self, concurrency_limit: usize) -> (pairing: Self)
        ensures
            pairing.concurrency_limit == if concurrency_limit == 0 {
                self.concurrency_limit
            } else {
                concurrency_limit
            },
            pairing.source == self.source,
            pairing.target == self.target,
            pairing.dry_run == self.dry_run,
    {
        if concurrency_limit == 0 {
            self
        } else {
            Self { concurrency_limit, ..self }
        }
    }

    /// A run of this pairing, not yet begun.
    pub fn run<E: BackupEntity>(&self, started_at: Timestamp) -> (run: PairingRun<E>)
        ensures
            run.phase() == RunPhase::Idle,
            run.in_flight() == 0,
            run.limit() == if self.concurrency_limit == 0 {
                1
            } else {
                self.concurrency_limit
            },
            run.dry_run() == self.dry_run,
            run.wf(),
            run.stats().total() == 0,
    {
        PairingRun {
            phase: RunPhase::Idle,
            in_flight: 0,
            limit: if self.concurrency_limit == 0 {
                1
            } else {
                self.concurrency_limit
            },
            dry_run: self.dry_run,
            held: None,
            stats: SummaryStatistics::new(started_at),
        }
    }
}

/// What was counted in a run.
#[derive(Clone, Copy, Debug)]
pub struct SummaryStatistics {
    pub started_at: Timestamp,
    pub ended_at: Option<Timestamp>,
    pub updated: usize,
    pub skipped: usize,
    pub unchanged: usize,
    pub new: usize,
    pub error: usize,
}

impl SummaryStatistics {
    /// How many events were counted.
    pub open spec fn total(&self) -> int {
        self.new + self.unchanged + self.updated + self.skipped + self.error
    }

    /// Nothing counted, in a run that began at `started_at`.
    pub fn new(started_at: Timestamp) -> (stats: SummaryStatistics)
        ensures
            stats.total() == 0,
            stats.new == 0 && stats.unchanged == 0 && stats.updated == 0 && stats.skipped == 0
                && stats.error == 0,
            stats.started_at == started_at,
            stats.ended_at is None,
    {
        SummaryStatistics {
            started_at,
            ended_at: None,
            updated: 0,
            skipped: 0,
            unchanged: 0,
            new: 0,
            error: 0,
        }
    }

    /// Counts one backup that ended as `state`.
    pub fn record_state(&mut self, state: &BackupState)
        requires
            old(self).total() < usize::MAX,
        ensures
            final(self).total() == old(self).total() + 1,
            final(self).new == old(self).new + if state is New {
                1int
            } else {
                0int
            },
            final(self).unchanged == old(self).unchanged + if state is Unchanged {
                1int
            } else {
                0int
            },
            final(self).updated == old(self).updated + if state is Updated {
                1int
            } else {
                0int
            },
            final(self).skipped == old(self).skipped + if state is Skipped {
                1int
            } else {
                0int
            },
            final(self).error == old(self).error,
            final(self).started_at == old(self).started_at,
            final(self).ended_at == old(self).ended_at,
    {
        match state {
            BackupState::New(_) => self.new += 1,
            BackupState::Unchanged(_) => self.unchanged += 1,
            BackupState::Updated(_) => self.updated += 1,
            BackupState::Skipped => self.skipped += 1,
        }
    }

    /// Counts one error.
    pub fn record_error(&mut self)
        requires
            old(self).total() < usize::MAX,
        ensures
            final(self).total() == old(self).total() + 1,
            final(self).error == old(self).error + 1,
            final(self).new == old(self).new,
            final(self).unchanged == old(self).unchanged,
            final(self).updated == old(self).updated,
            final(self).skipped == old(self).skipped,
            final(self).started_at == old(self).started_at,
            final(self).ended_at == old(self).ended_at,
    {
        self.error += 1;
    }

    /// Notes that the run ended at `now`.
    pub fn finish(&mut self, now: Timestamp)
        ensures
            final(self).ended_at == Some(now),
            final(self).started_at == old(self).started_at,
            final(self).total() == old(self).total(),
            final(self).new == old(self).new,
            final(self).unchanged == old(self).unchanged,
            final(self).updated == old(self).updated,
            final(self).skipped == old(self).skipped,
            final(self).error == old(self).error,
    {
        self.ended_at = Some(now);
    }

    /// How long the run took, in nanoseconds: nothing as long as it has
    /// not ended.
    pub fn duration(&self) -> (nanos: i128)
        ensures
            nanos == match self.ended_at {
                Some(end) => (end.seconds - self.started_at.seconds) * 1_000_000_000 + (end.nanos
                    - self.started_at.nanos),
                None => 0,
            },
    {
        match self.ended_at {
            Some(end) => {
                let seconds: i128 = end.seconds as i128 - self.started_at.seconds as i128;
                let nanos: i128 = end.nanos as i128 - self.started_at.nanos as i128;
                seconds * 1_000_000_000 + nanos
            },
            None => 0,
        }
    }

    /// The counts as they are shown to a person.
    pub fn to_string(&self) -> (out: String)
        ensures
            out@ == "New: "@ + decimal_text(self.new as nat) + ", Unchanged: "@ + decimal_text(
                self.unchanged as nat,
            ) + ", Updated: "@ + decimal_text(self.updated as nat) + ", Skipped: "@ + decimal_text(
                self.skipped as nat,
            ) + ", Error(s): "@ + decimal_text(self.error as nat),
    {
        let mut out = String::from_str("New: ");
        push_decimal(&mut out, self.new);
        out.append(", Unchanged: ");
        push_decimal(&mut out, self.unchanged);
        out.append(", Updated: ");
        push_decimal(&mut out, self.updated);
        out.append(", Skipped: ");
        push_decimal(&mut out, self.skipped);
        out.append(", Error(s): ");
        push_decimal(&mut out, self.error);
        out
    }
}

/// Who is told of what a run emits.
pub trait PairingHandler<E: BackupEntity> {
    /// The backup of `entity` ended as `state`.
    fn on_complete(&self, entity: E, state: BackupState);

    /// Something went wrong.
    fn on_error(&self, error: Error);

    /// The run has ended.
    fn on_summary(&self, stats: SummaryStatistics);
}

/// Where a run stands.
#[derive(Clone, Copy, Debug, PartialEq, Eq, Structural)]
pub enum RunPhase {
    /// Not begun.
    Idle,
    /// Entities are pulled from the source.
    Producing,
    /// The source is done with, and backups are still running.
    Draining,
    /// Ended.
    Finished,
}

/// What happened.
pub enum PairingEvent<E> {
    /// The run begins.
    Started,
    /// The source yielded an entity, or failed to.
    Item(Result<E, Error>),
    /// The source has no more entities.
    SourceEnded,
    /// A backup task has ended.
    TaskFinished(Result<(E, BackupState), Error>),
}

/// What is to be done after an event.
pub enum NextStep<E> {
    /// Pull the next entity from the source.
    Pull,
    /// Wait for one of the running backups to end.
    AwaitTask,
    /// Start the backup of this entity as a task of its own, and pull the
    /// next entity.
    Spawn(E),
    /// Ask the run to go on with the item that it held back.
    Resume,
    /// The run has ended.
    Finish,
}

/// The answer to an event: what to emit, if anything, and what to do next.
pub struct PairingAction<E> {
    pub emit: Option<Result<(E, BackupState), Error>>,
    pub next: NextStep<E>,
}

/// One run of a pairing for one policy.
pub struct PairingRun<E> {
    phase: RunPhase,
    in_flight: usize,
    limit: usize,
    dry_run: bool,
    held: Option<Result<E, Error>>,
    stats: SummaryStatistics,
}

impl<E: BackupEntity> PairingRun<E> {
    /// Where the run stands.
    pub closed spec fn phase(&self) -> RunPhase {
        self.phase
    }

    /// How many backups are running.
    pub closed spec fn in_flight(&self) -> int {
        self.in_flight as int
    }

    /// How many backups may run at a time.
    pub closed spec fn limit(&self) -> int {
        self.limit as int
    }

    /// Whether nothing is backed up.
    pub closed spec fn dry_run(&self) -> bool {
        self.dry_run
    }

    /// The item that waits for a backup to end before it is looked at.
    pub closed spec fn held(&self) -> Option<Result<E, Error>> {
        self.held
    }

    /// What was counted so far.
    pub closed spec fn stats(&self) -> SummaryStatistics {
        self.stats
    }

    /// The invariant of a run: never more backups are running than may,
    /// and an item is held back only while entities are pulled.
    pub closed spec fn wf(&self) -> bool {
        &&& 1 <= self.limit
        &&& self.in_flight <= self.limit
        &&& self.held is Some ==> self.phase == RunPhase::Producing
        &&& self.phase == RunPhase::Idle ==> self.in_flight == 0
    }

    /// What was counted so far.
    pub fn summary(&self) -> (stats: SummaryStatistics)
        ensures
            stats == self.stats(),
    {
        self.stats
    }

    /// Notes that the run ended at `now`, and gives what was counted.
    pub fn finish(&mut self, now: Timestamp) -> (stats: SummaryStatistics)
        ensures
            stats.total() == old(self).stats().total(),
            stats.ended_at == Some(now),
            stats.started_at == old(self).stats().started_at,
            final(self).stats() == stats,
            final(self).phase() == old(self).phase(),
            final(self).in_flight() == old(self).in_flight(),
            final(self).limit() == old(self).limit(),
            final(self).dry_run() == old(self).dry_run(),
            final(self).held() == old(self).held(),
    {
        self.stats.finish(now);
        self.stats
    }

    fn emit(&mut self, event: Result<(E, BackupState), Error>, next: NextStep<E>) -> (action:
        PairingAction<E>)
        requires
            old(self).stats.total() < usize::MAX,
        ensures
            action.emit == Some(event),
            action.next == next,
            final(self).stats.total() == old(self).stats.total() + 1,
            final(self).stats.error == old(self).stats.error + if event is Err {
                1int
            } else {
                0int
            },
            final(self).phase == old(self).phase,
            final(self).in_flight == old(self).in_flight,
            final(self).limit == old(self).limit,
            final(self).dry_run == old(self).dry_run,
            final(self).held == old(self).held,
    {
        match &event {
            Ok(done) => self.stats.record_state(&done.1),
            Err(_) => self.stats.record_error(),
        }
        PairingAction { emit: Some(event), next }
    }

    fn drain(&mut self) -> (next: NextStep<E>)
        requires
            old(self).wf(),
            old(self).held is None,
        ensures
            final(self).wf(),
            final(self).held is None,
            final(self).in_flight == old(self).in_flight,
            final(self).limit == old(self).limit,
            final(self).dry_run == old(self).dry_run,
            final(self).stats == old(self).stats,
            if old(self).in_flight > 0 {
                next is AwaitTask && final(self).phase == RunPhase::Draining
            } else {
                next is Finish && final(self).phase == RunPhase::Finished
            },
    {
        if self.in_flight > 0 {
            self.phase = RunPhase::Draining;
            NextStep::AwaitTask
        } else {
            self.phase = RunPhase::Finished;
            NextStep::Finish
        }
    }

    /// Looks at an item of the source for which a backup may be started.
    fn consider(&mut self, item: Result<E, Error>, policy: &BackupPolicy, cancelled: bool) -> (action:
        PairingAction<E>)
        requires
            old(self).wf(),
            old(self).phase == RunPhase::Producing,
            old(self).held is None,
            old(self).in_flight < old(self).limit,
            old(self).stats.total() < usize::MAX,
        ensures
            final(self).wf(),
            final(self).limit == old(self).limit,
            final(self).dry_run == old(self).dry_run,
            final(self).held is None,
            final(self).in_flight <= final(self).limit,
            final(self).stats.total() == old(self).stats.total() + if action.emit is Some {
                1int
            } else {
                0int
            },
            action.next is Spawn ==> final(self).in_flight == old(self).in_flight + 1,
            considered(*old(self), item, policy, cancelled, *final(self), action),
    {
        if cancelled {
            let next = self.drain();
            return PairingAction { emit: None, next };
        }
        let entity = match item {
            Ok(e) => e,
            Err(e) => {
                return self.emit(Err(e), NextStep::Pull);
            },
        };
        if self.dry_run {
            return self.emit(Ok((entity, BackupState::Skipped)), NextStep::Pull);
        }
        match policy.filter.matches(&entity) {
            Ok(true) => {
                self.in_flight += 1;
                PairingAction { emit: None, next: NextStep::Spawn(entity) }
            },
            Ok(false) => self.emit(Ok((entity, BackupState::Skipped)), NextStep::Pull),
            Err(e) => self.emit(Err(e), NextStep::Pull),
        }
    }

    /// Takes note of what happened, and says what to emit and what to do
    /// next. `cancelled` is what the cancellation flag reads now. An event
    /// that the run did not wait for changes nothing and ends the run.
    pub fn step<S: BackupSource>(
        &mut self,
        source: &S,
        policy: &BackupPolicy,
        event: PairingEvent<E>,
        cancelled: bool,
    ) -> (action: PairingAction<E>)
        requires
            old(self).wf(),
            old(self).stats().total() < usize::MAX,
        ensures
            final(self).wf(),
            final(self).limit() == old(self).limit(),
            final(self).dry_run() == old(self).dry_run(),
            final(self).in_flight() <= final(self).limit(),
            final(self).stats().total() == old(self).stats().total() + if action.emit is Some {
                1int
            } else {
                0int
            },
            action.next is Spawn ==> final(self).in_flight() == old(self).in_flight() + 1,
            stepped(*old(self), source, policy, event, cancelled, *final(self), action),
    {
        match event {
            PairingEvent::Started => {
                if !matches!(self.phase, RunPhase::Idle) {
                    self.phase = RunPhase::Finished;
                    self.held = None;
                    return PairingAction { emit: None, next: NextStep::Finish };
                }
                match source.validate(policy) {
                    Ok(()) => {
                        self.phase = RunPhase::Producing;
                        PairingAction { emit: None, next: NextStep::Pull }
                    },
                    Err(e) => {
                        self.phase = RunPhase::Finished;
                        self.emit(Err(e), NextStep::Finish)
                    },
                }
            },
            PairingEvent::Item(item) => {
                if !matches!(self.phase, RunPhase::Producing) || self.held.is_some() {
                    self.phase = RunPhase::Finished;
                    self.held = None;
                    return PairingAction { emit: None, next: NextStep::Finish };
                }
                if self.in_flight >= self.limit {
                    self.held = Some(item);
                    PairingAction { emit: None, next: NextStep::AwaitTask }
                } else {
                    self.consider(item, policy, cancelled)
                }
            },
            PairingEvent::SourceEnded => {
                if !matches!(self.phase, RunPhase::Producing) || self.held.is_some() {
                    self.phase = RunPhase::Finished;
                    self.held = None;
                    return PairingAction { emit: None, next: NextStep::Finish };
                }
                let next = self.drain();
                PairingAction { emit: None, next }
            },
            PairingEvent::TaskFinished(result) => {
                if self.in_flight == 0 {
                    self.phase = RunPhase::Finished;
                    self.held = None;
                    return PairingAction { emit: None, next: NextStep::Finish };
                }
                self.in_flight -= 1;
                match self.phase {
                    RunPhase::Producing => {
                        let next = if self.held.is_some() {
                            NextStep::Resume
                        } else {
                            NextStep::Pull
                        };
                        self.emit(result, next)
                    },
                    _ => {
                        let next = if self.in_flight > 0 {
                            NextStep::AwaitTask
                        } else {
                            self.phase = RunPhase::Finished;
                            NextStep::Finish
                        };
                        self.emit(result, next)
                    },
                }
            },
        }
    }

    /// Goes on with the item that was held back while as many backups
    /// were running as may, now that one of them has ended. Where no item
    /// is held back, or no backup may be started, the run ends.
    pub fn resume(&mut self, policy: &BackupPolicy, cancelled: bool) -> (action: PairingAction<E>)
        requires
            old(self).wf(),
            old(self).stats().total() < usize::MAX,
        ensures
            final(self).wf(),
            final(self).limit() == old(self).limit(),
            final(self).dry_run() == old(self).dry_run(),
            final(self).in_flight() <= final(self).limit(),
            final(self).held() is None,
            final(self).stats().total() == old(self).stats().total() + if action.emit is Some {
                1int
            } else {
                0int
            },
            match old(self).held() {
                Some(item) => if old(self).in_flight() < old(self).limit() {
                    considered(*old(self), item, policy, cancelled, *final(self), action)
                } else {
                    action.emit is None && action.next is Finish && final(self).phase()
                        == RunPhase::Finished
                },
                None => action.emit is None && action.next is Finish && final(self).phase()
                    == RunPhase::Finished,
            },
    {
        let item = self.held.take();
        match item {
            Some(item) => {
                if self.in_flight >= self.limit {
                    self.phase = RunPhase::Finished;
                    PairingAction { emit: None, next: NextStep::Finish }
                } else {
                    self.consider(item, policy, cancelled)
                }
            },
            None => {
                self.phase = RunPhase::Finished;
                PairingAction { emit: None, next: NextStep::Finish }
            },
        }
    }
}

/// What looking at an item does: a cancelled run goes on to drain; an
/// error of the source is emitted; in a dry run, or where the filter of
/// the policy does not let the entity through, the entity is emitted as
/// skipped and no backup is started; otherwise a backup is started, and
/// one more is running.
pub open spec fn considered<E: BackupEntity>(
    before: PairingRun<E>,
    item: Result<E, Error>,
    policy: &BackupPolicy,
    cancelled: bool,
    after: PairingRun<E>,
    action: PairingAction<E>,
) -> bool {
    if cancelled {
        &&& action.emit is None
        &&& after.in_flight() == before.in_flight()
        &&& after.stats() == before.stats()
        &&& if before.in_flight() > 0 {
            action.next is AwaitTask && after.phase() == RunPhase::Draining
        } else {
            action.next is Finish && after.phase() == RunPhase::Finished
        }
    } else {
        &&& after.phase() == RunPhase::Producing
        &&& match item {
            Err(e) => {
                &&& action.emit == Some(Err::<(E, BackupState), Error>(e))
                &&& action.next is Pull
                &&& after.in_flight() == before.in_flight()
            },
            Ok(entity) => if !before.dry_run() && policy.filter.accepts(properties_of(&entity)) {
                &&& action.emit is None
                &&& action.next == NextStep::Spawn(entity)
                &&& after.in_flight() == before.in_flight() + 1
                &&& after.stats() == before.stats()
            } else {
                &&& action.emit == Some(Ok::<(E, BackupState), Error>((entity, BackupState::Skipped)))
                &&& action.next is Pull
                &&& after.in_flight() == before.in_flight()
            },
        }
    }
}

/// What a step does.
pub open spec fn stepped<E: BackupEntity, S: BackupSource>(
    before: PairingRun<E>,
    source: &S,
    policy: &BackupPolicy,
    event: PairingEvent<E>,
    cancelled: bool,
    after: PairingRun<E>,
    action: PairingAction<E>,
) -> bool {
    match event {
        PairingEvent::Started => if before.phase() != RunPhase::Idle {
            action.emit is None && action.next is Finish && after.phase() == RunPhase::Finished
        } else {
            match source.objection(policy) {
                None => {
                    &&& action.emit is None
                    &&& action.next is Pull
                    &&& after.phase() == RunPhase::Producing
                    &&& after.in_flight() == 0
                },
                Some(e) => {
                    &&& action.emit matches Some(Err(x))
                    &&& x@ == e
                    &&& action.next is Finish
                    &&& after.phase() == RunPhase::Finished
                },
            }
        },
        PairingEvent::Item(item) => if before.phase() != RunPhase::Producing || before.held() is Some {
            action.emit is None && action.next is Finish && after.phase() == RunPhase::Finished
        } else if before.in_flight() >= before.limit() {
            &&& action.emit is None
            &&& action.next is AwaitTask
            &&& after.held() == Some(item)
            &&& after.in_flight() == before.in_flight()
            &&& after.phase() == RunPhase::Producing
        } else {
            considered(before, item, policy, cancelled, after, action)
        },
        PairingEvent::SourceEnded => if before.phase() != RunPhase::Producing || before.held()
            is Some {
            action.emit is None && action.next is Finish && after.phase() == RunPhase::Finished
        } else {
            &&& action.emit is None
            &&& after.in_flight() == before.in_flight()
            &&& if before.in_flight() > 0 {
                action.next is AwaitTask && after.phase() == RunPhase::Draining
            } else {
                action.next is Finish && after.phase() == RunPhase::Finished
            }
        },
        PairingEvent::TaskFinished(result) => if before.in_flight() == 0 {
            action.emit is None && action.next is Finish && after.phase() == RunPhase::Finished
        } else {
            &&& action.emit == Some(result)
            &&& after.in_flight() == before.in_flight() - 1
            &&& after.held() == before.held()
            &&& if before.phase() == RunPhase::Producing {
                &&& after.phase() == RunPhase::Producing
                &&& if before.held() is Some {
                    action.next is Resume
                } else {
                    action.next is Pull
                }
            } else if after.in_flight() > 0 {
                action.next is AwaitTask && after.phase() == before.phase()
            } else {
                action.next is Finish && after.phase() == RunPhase::Finished
            }
        },
    }
}

} // verus!
