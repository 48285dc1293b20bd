//! The configuration of the service, and when it runs.
use vstd::prelude::*;
use std::str::FromStr;
use crate::errors::{user, user_error, Error, ErrorView};
use crate::policy::BackupPolicy;
use crate::text::surround;
use crate::time::{not_before, Timestamp};

verus! {

#[verifier::external_type_specification]
#[verifier::external_body]
pub struct ExCron(croner::Cron);

/// Whether a text is a cron pattern.
pub uninterp spec fn is_cron_pattern(pattern: Seq<char>) -> bool;

/// The schedule that `pattern` writes.
///
/// Trusted: wraps `croner::Cron::from_str`, which accepts or rejects a
/// pattern by its text alone.
#[verifier::external_body]
fn parse_cron(pattern: &str) -> (cron: Option<croner::Cron>)
    ensures
        cron is Some <==> is_cron_pattern(pattern@),
{
    croner::Cron::from_str(pattern).ok()
}

/// The first time after the given point in time at which a schedule is
/// due, counted in UTC: none where the schedule is never due again, or
/// where the calendar does not reach the point in time.
pub uninterp spec fn cron_next(cron: croner::Cron, seconds: int, nanos: int) -> Option<Timestamp>;

/// The next time after `now` at which `cron` is due, where there is one.
///
/// Trusted: wraps `croner::Cron::find_next_occurrence`, exclusive of the
/// start, on the UTC time that `chrono::DateTime::from_timestamp` makes of
/// `now`. With the time zone fixed to UTC the search reads nothing but the
/// schedule and the start, so its result depends on these alone.
#[verifier::external_body]
fn next_occurrence(cron: &croner::Cron, now: Timestamp) -> (next: Option<Timestamp>)
    ensures
        next == cron_next(*cron, now.seconds as int, now.nanos as int),
{
    chrono::DateTime::from_timestamp(now.seconds, now.nanos).and_then(
        |t| cron.find_next_occurrence(&t, false).ok(),
    ).map(|t| Timestamp { seconds: t.timestamp(), nanos: t.timestamp_subsec_nanos() })
}

/// What the service is asked to do: the policies, and the schedule on
/// which to run them, if they are to run more than once.
pub struct Config {
    pub schedule: Option<croner::Cron>,
    pub backups: Vec<BackupPolicy>,
}

/// The error for a schedule that is no cron pattern.
pub open spec fn invalid_schedule(pattern: Seq<char>) -> ErrorView {
    user_error(
        "The schedule '"@ + pattern + "' is not a valid cron expression."@,
        "Make sure that your schedule is a cron expression such as '0 0 * * *'."@,
    )
}

/// What the scheduler does between two passes.
#[derive(Clone, Copy, Debug, PartialEq, Eq, Structural)]
pub enum Pause {
    /// Run the policies now.
    Run,
    /// Sleep for this many milliseconds, and ask again.
    Sleep(u64),
    /// Stop.
    Stop,
}

/// What the scheduler does at `now`, when the next pass is due at
/// `next_run` if at all: it stops once cancelled or when no pass is due,
/// sleeps for half a second as long as the pass is not due yet, and runs
/// once it is.
pub open spec fn pause_for(next_run: Option<Timestamp>, now: Timestamp, cancelled: bool) -> Pause {
    if cancelled {
        Pause::Stop
    } else {
        match next_run {
            None => Pause::Stop,
            Some(due) => if not_before(now, due) {
                Pause::Run
            } else {
                Pause::Sleep(500)
            },
        }
    }
}

impl Config {
    /// The configuration with the policies `backups`, to be run on the
    /// schedule that `schedule` writes; a user error where that is no cron
    /// pattern.
    pub fn new(schedule: Option<&str>, backups: Vec<BackupPolicy>) -> (r: Result<Config, Error>)
        ensures
            match schedule {
                Some(pattern) => if is_cron_pattern(pattern@) {
                    r matches Ok(c) && c.schedule is Some && c.backups == backups
                } else {
                    r matches Err(e) && e@ == invalid_schedule(pattern@)
                },
                None => r matches Ok(c) && c.schedule is None && c.backups == backups,
            },
    {
        match schedule {
            Some(pattern) => match parse_cron(pattern) {
                Some(cron) => Ok(Config { schedule: Some(cron), backups }),
                None => Err(
                    user(
                        surround("The schedule '", pattern, "' is not a valid cron expression."),
                        "Make sure that your schedule is a cron expression such as '0 0 * * *'.",
                    ),
                ),
            },
            None => Ok(Config { schedule: None, backups }),
        }
    }

    /// When the next pass is due after `now`: at the first time after
    /// `now` at which the schedule is due, and never without a schedule.
    pub fn next_run(&self, now: Timestamp) -> (next: Option<Timestamp>)
        ensures
            next == match self.schedule {
                Some(cron) => cron_next(cron, now.seconds as int, now.nanos as int),
                None => None,
            },
    {
        match &self.schedule {
            Some(cron) => next_occurrence(cron, now),
            None => None,
        }
    }

    /// Whether a pass begins: not once the service is cancelled.
    pub fn begins(cancelled: bool) -> (run: bool)
        ensures
            run == !cancelled,
    {
        !cancelled
    }

    /// What the scheduler does at `now` after a pass, when the next one is
    /// due at `next_run` if at all.
    pub fn pause(next_run: Option<Timestamp>, now: Timestamp, cancelled: bool) -> (pause: Pause)
        ensures
            pause == pause_for(next_run, now, cancelled),
    {
        if cancelled {
            return Pause::Stop;
        }
        match next_run {
            None => Pause::Stop,
            Some(due) => if now.is_not_before(&due) {
                Pause::Run
            } else {
                Pause::Sleep(500)
            },
        }
    }
}

} // verus!
