//! The engine that downloads a file.
//!
//! Downloading is input and output from start to end, so the engine is a
//! machine: whoever drives it performs the action it names and hands back
//! what happened, together with the state of the cancellation flag at that
//! moment. The machine decides what comes next. A file is written under a
//! temporary name and moved to its final name only when it is complete; the
//! digest beside it is written last.
use vstd::prelude::*;
use super::{BackupState, BackupStateView};
use crate::digest::{hex_text, sha256, Hasher};
use crate::entities::credentials::{Credentials, CredentialsView};
use crate::entities::http_file::HttpFile;
use crate::errors::{
    system, system_error, system_with_internal, user_error, user_with_internal, Error, ErrorView,
};
use crate::http::{is_success, succeeded, HttpRequest, HttpRequestView};
use crate::text::{decimal_text, join, push_decimal, same_str, surround};
use crate::time::{iso8601, not_before, Timestamp};

verus! {

/// Where a download stands: what it waits for.
#[derive(Clone, Copy, Debug, PartialEq, Eq, Structural)]
pub enum Phase {
    Start,
    EnsuringParent,
    CheckingTarget,
    Requesting,
    ReadingError,
    OpeningTemp,
    Streaming,
    Writing,
    Discarding,
    ReadingSidecar,
    RemovingTemp,
    CheckingExisting,
    RemovingTarget,
    Renaming,
    WritingSidecar,
    Finished,
}

/// What happened to the last action.
pub enum HttpFileEvent {
    /// The backup begins.
    Started,
    /// The action was carried out.
    Completed,
    /// The action failed, for the reason given.
    Failed(String),
    /// When the target was last changed, if it is there.
    Modified(Option<Timestamp>),
    /// The response arrived with this status code.
    Response(u16),
    /// The body of a response that reported an error.
    Body(String),
    /// The next piece of the body.
    Chunk(Vec<u8>),
    /// The body has ended.
    EndOfBody,
    /// The digest that stands beside the target, if one does, without
    /// blanks around it.
    Sidecar(Option<String>),
    /// Whether the target is there.
    Exists(bool),
}

/// An event as a mathematical object.
pub enum EventView {
    Started,
    Completed,
    Failed(Seq<char>),
    Modified(Option<Timestamp>),
    Response(u16),
    Body(Seq<char>),
    Chunk(Seq<u8>),
    EndOfBody,
    Sidecar(Option<Seq<char>>),
    Exists(bool),
}

impl View for HttpFileEvent {
    type V = EventView;

    open spec fn view(&self) -> EventView {
        match self {
            HttpFileEvent::Started => EventView::Started,
            HttpFileEvent::Completed => EventView::Completed,
            HttpFileEvent::Failed(c) => EventView::Failed(c@),
            HttpFileEvent::Modified(t) => EventView::Modified(*t),
            HttpFileEvent::Response(s) => EventView::Response(*s),
            HttpFileEvent::Body(b) => EventView::Body(b@),
            HttpFileEvent::Chunk(c) => EventView::Chunk(c@),
            HttpFileEvent::EndOfBody => EventView::EndOfBody,
            HttpFileEvent::Sidecar(s) => EventView::Sidecar(
                match s {
                    Some(s) => Some(s@),
                    None => None,
                },
            ),
            HttpFileEvent::Exists(b) => EventView::Exists(*b),
        }
    }
}

/// What is to be done next.
pub enum HttpFileAction {
    /// Create the directories above the path.
    EnsureParent(String),
    /// Find out when the file at the path was last changed.
    StatTarget(String),
    /// Send the request.
    Send(HttpRequest),
    /// Read the body of the response as text.
    ReadErrorBody,
    /// Create the file at the path, or empty it, and keep it open.
    CreateTemp(String),
    /// Read the next piece of the body.
    ReadChunk,
    /// Write the bytes to the open file.
    Write(Vec<u8>),
    /// Close the open file and remove the file at the path, as far as that
    /// is possible.
    Discard(String),
    /// Close the open file, and read the digest at the path.
    ReadSidecar(String),
    /// Remove the file at the path.
    RemoveTemp(String),
    /// Find out whether a file is at the path.
    CheckTarget(String),
    /// Remove the file at the path.
    RemoveTarget(String),
    /// Move the file `from` to `to` in one step.
    Rename { from: String, to: String },
    /// Write `content` to the file at `path`.
    WriteSidecar { path: String, content: String },
    /// The backup has ended with this outcome.
    Done(Result<BackupState, Error>),
}

/// How a backup ends, as a mathematical object.
pub type OutcomeView = Result<BackupStateView, ErrorView>;

/// The view of how a backup ends.
pub open spec fn outcome_view(outcome: Result<BackupState, Error>) -> OutcomeView {
    match outcome {
        Ok(state) => Ok(state@),
        Err(e) => Err(e@),
    }
}

/// An action as a mathematical object.
pub enum ActionView {
    EnsureParent(Seq<char>),
    StatTarget(Seq<char>),
    Send(HttpRequestView),
    ReadErrorBody,
    CreateTemp(Seq<char>),
    ReadChunk,
    Write(Seq<u8>),
    Discard(Seq<char>),
    ReadSidecar(Seq<char>),
    RemoveTemp(Seq<char>),
    CheckTarget(Seq<char>),
    RemoveTarget(Seq<char>),
    Rename { from: Seq<char>, to: Seq<char> },
    WriteSidecar { path: Seq<char>, content: Seq<char> },
    Done(OutcomeView),
}

impl View for HttpFileAction {
    type V = ActionView;

    open spec fn view(&self) -> ActionView {
        match self {
            HttpFileAction::EnsureParent(p) => ActionView::EnsureParent(p@),
            HttpFileAction::StatTarget(p) => ActionView::StatTarget(p@),
            HttpFileAction::Send(r) => ActionView::Send(r@),
            HttpFileAction::ReadErrorBody => ActionView::ReadErrorBody,
            HttpFileAction::CreateTemp(p) => ActionView::CreateTemp(p@),
            HttpFileAction::ReadChunk => ActionView::ReadChunk,
            HttpFileAction::Write(b) => ActionView::Write(b@),
            HttpFileAction::Discard(p) => ActionView::Discard(p@),
            HttpFileAction::ReadSidecar(p) => ActionView::ReadSidecar(p@),
            HttpFileAction::RemoveTemp(p) => ActionView::RemoveTemp(p@),
            HttpFileAction::CheckTarget(p) => ActionView::CheckTarget(p@),
            HttpFileAction::RemoveTarget(p) => ActionView::RemoveTarget(p@),
            HttpFileAction::Rename { from, to } => ActionView::Rename { from: from@, to: to@ },
            HttpFileAction::WriteSidecar { path, content } => ActionView::WriteSidecar {
                path: path@,
                content: content@,
            },
            HttpFileAction::Done(outcome) => ActionView::Done(outcome_view(*outcome)),
        }
    }
}

/// A download as a mathematical object: what is downloaded and where to,
/// where the download stands, the bytes received so far, the status of an
/// error response, whether the target was there, and the outcome that
/// waits for the temporary file to be discarded.
pub struct Download {
    pub url: Seq<char>,
    pub content_type: Option<Seq<char>>,
    pub credentials: CredentialsView,
    pub last_modified: Option<Timestamp>,
    pub target: Seq<char>,
    pub phase: Phase,
    pub received: Seq<u8>,
    pub status: u16,
    pub existed: bool,
    pub pending: Option<OutcomeView>,
}

/// A step of a download: how it goes on, and what is to be done.
pub struct Step {
    pub next: Download,
    pub action: ActionView,
}

/// The name under which the file is written until it is complete.
pub open spec fn temp_path(target: Seq<char>) -> Seq<char> {
    target + ".tmp"@
}

/// The name of the file that holds the digest of the target.
pub open spec fn sidecar_path(target: Seq<char>) -> Seq<char> {
    target + ".sha256"@
}

/// The product that the service presents itself as.
pub open spec fn user_agent() -> Seq<char> {
    "SierraSoftworks/github-backup"@
}

/// The request that fetches the file.
pub open spec fn request_of(d: Download) -> HttpRequestView {
    HttpRequestView {
        url: d.url,
        headers: match d.content_type {
            Some(t) => seq![("User-Agent"@, user_agent()), ("Accept"@, t)],
            None => seq![("User-Agent"@, user_agent())],
        },
        credentials: d.credentials,
    }
}

/// The digest of what was received, in hexadecimal.
pub open spec fn digest_of(d: Download) -> Seq<char> {
    hex_text(sha256(d.received))
}

/// A point in time as text, where it can be written.
pub open spec fn time_text(t: Option<Timestamp>) -> Option<Seq<char>> {
    match t {
        Some(t) => iso8601(t.seconds as int, t.nanos as int),
        None => None,
    }
}

/// The detail of a file that was written: when its origin last changed,
/// where that is known and can be written, else its digest.
pub open spec fn written_detail(d: Download) -> Seq<char> {
    match time_text(d.last_modified) {
        Some(t) => "at "@ + t,
        None => "at sha256:"@ + digest_of(d),
    }
}

/// The detail of a file that is as new as its origin.
pub open spec fn since_detail(local: Timestamp) -> Option<Seq<char>> {
    match time_text(Some(local)) {
        Some(t) => Some("since "@ + t),
        None => None,
    }
}

/// The error with the summary `before` + `what` + `after`, the advice
/// `advice` and the cause `cause`.
pub open spec fn failure(
    user: bool,
    before: Seq<char>,
    what: Seq<char>,
    after: Seq<char>,
    advice: Seq<char>,
    cause: Seq<char>,
) -> OutcomeView {
    Err(
        ErrorView {
            cause: Some(cause),
            ..if user {
                user_error(before + what + after, advice)
            } else {
                system_error(before + what + after, advice)
            }
        },
    )
}

pub open spec fn write_advice() -> Seq<char> {
    "Make sure that you have permission to write to this file/directory and try again."@
}

pub open spec fn delete_advice() -> Seq<char> {
    "Make sure that you have write (and delete) permission on the backup directory and try again."@
}

/// The outcome for an event that the download did not wait for.
pub open spec fn unexpected(d: Download) -> OutcomeView {
    Err(
        system_error(
            "The backup of '"@ + d.target + "' received an event that it was not waiting for."@,
            "Please report this issue to us on GitHub."@,
        ),
    )
}

/// The outcome for an error response whose body was `body`.
pub open spec fn rejected(d: Download, body: Seq<char>) -> OutcomeView {
    Err(
        ErrorView {
            cause: Some(body),
            status_code: Some(d.status),
            ..user_error(
                "Got an HTTP "@ + decimal_text(d.status as nat)
                    + " status code when trying to fetch '"@ + d.url + "'."@,
                "Make sure that you can access the URL and update your backup configuration if not."@,
            )
        },
    )
}

/// The download ends with `outcome`.
pub open spec fn finish(d: Download, outcome: OutcomeView) -> Step {
    Step { next: Download { phase: Phase::Finished, ..d }, action: ActionView::Done(outcome) }
}

/// The download gives up its temporary file and will end with `outcome`.
pub open spec fn abandon(d: Download, outcome: OutcomeView) -> Step {
    Step {
        next: Download { phase: Phase::Discarding, pending: Some(outcome), ..d },
        action: ActionView::Discard(temp_path(d.target)),
    }
}

/// The download goes on in `phase` with `action`.
pub open spec fn proceed(d: Download, phase: Phase, action: ActionView) -> Step {
    Step { next: Download { phase, ..d }, action }
}

/// The request is sent, unless the backup was cancelled.
pub open spec fn before_request(d: Download, cancelled: bool) -> Step {
    if cancelled {
        finish(d, Ok(BackupStateView::Skipped))
    } else {
        proceed(d, Phase::Requesting, ActionView::Send(request_of(d)))
    }
}

/// What a download in the state `d` does when `event` happens while the
/// cancellation flag reads `cancelled`.
pub open spec fn step_spec(d: Download, event: EventView, cancelled: bool) -> Step {
    match (d.phase, event) {
        (Phase::Start, EventView::Started) => proceed(
            d,
            Phase::EnsuringParent,
            ActionView::EnsureParent(d.target),
        ),
        (Phase::EnsuringParent, EventView::Completed) => if d.last_modified is Some {
            proceed(d, Phase::CheckingTarget, ActionView::StatTarget(d.target))
        } else {
            before_request(d, cancelled)
        },
        (Phase::EnsuringParent, EventView::Failed(cause)) => finish(
            d,
            failure(
                true,
                "Unable to create the backup directory for '"@,
                d.target,
                "'"@,
                "Make sure that you have permission to create the directory."@,
                cause,
            ),
        ),
        (Phase::CheckingTarget, EventView::Modified(local)) => if d.last_modified is Some
            && local is Some && not_before(local->0, d.last_modified->0) {
            finish(d, Ok(BackupStateView::Unchanged(since_detail(local->0))))
        } else {
            before_request(d, cancelled)
        },
        (Phase::Requesting, EventView::Response(status)) => if !is_success(status) {
            proceed(Download { status, ..d }, Phase::ReadingError, ActionView::ReadErrorBody)
        } else if cancelled {
            finish(d, Ok(BackupStateView::Skipped))
        } else {
            proceed(d, Phase::OpeningTemp, ActionView::CreateTemp(temp_path(d.target)))
        },
        (Phase::Requesting, EventView::Failed(cause)) => finish(
            d,
            failure(
                false,
                "Unable to fetch '"@,
                d.url,
                "'."@,
                "Make sure that your internet connectivity is working correctly and try again."@,
                cause,
            ),
        ),
        (Phase::ReadingError, EventView::Body(body)) => finish(d, rejected(d, body)),
        (Phase::ReadingError, EventView::Failed(cause)) => finish(d, rejected(d, cause)),
        (Phase::OpeningTemp, EventView::Completed) => proceed(
            d,
            Phase::Streaming,
            ActionView::ReadChunk,
        ),
        (Phase::OpeningTemp, EventView::Failed(cause)) => finish(
            d,
            failure(
                true,
                "Unable to create temporary backup file '"@,
                temp_path(d.target),
                "'."@,
                write_advice(),
                cause,
            ),
        ),
        (Phase::Streaming, EventView::Chunk(bytes)) => if cancelled {
            abandon(d, Ok(BackupStateView::Skipped))
        } else {
            proceed(
                Download { received: d.received + bytes, ..d },
                Phase::Writing,
                ActionView::Write(bytes),
            )
        },
        (Phase::Streaming, EventView::EndOfBody) => proceed(
            d,
            Phase::ReadingSidecar,
            ActionView::ReadSidecar(sidecar_path(d.target)),
        ),
        (Phase::Streaming, EventView::Failed(cause)) => finish(
            d,
            failure(
                false,
                "Failed to read the response from '"@,
                d.url,
                "'."@,
                "Make sure that your internet connectivity is working correctly and try again."@,
                cause,
            ),
        ),
        (Phase::Writing, EventView::Completed) => proceed(d, Phase::Streaming, ActionView::ReadChunk),
        (Phase::Writing, EventView::Failed(cause)) => abandon(
            d,
            failure(
                true,
                "Failed to write to temporary backup file '"@,
                temp_path(d.target),
                "'."@,
                write_advice(),
                cause,
            ),
        ),
        (Phase::Discarding, EventView::Completed) | (Phase::Discarding, EventView::Failed(_)) => finish(
            Download { pending: None, ..d },
            match d.pending {
                Some(outcome) => outcome,
                None => unexpected(d),
            },
        ),
        (Phase::ReadingSidecar, EventView::Sidecar(existing)) => if existing == Some(digest_of(d)) {
            proceed(d, Phase::RemovingTemp, ActionView::RemoveTemp(temp_path(d.target)))
        } else {
            proceed(d, Phase::CheckingExisting, ActionView::CheckTarget(d.target))
        },
        (Phase::RemovingTemp, EventView::Completed) => finish(
            d,
            Ok(BackupStateView::Unchanged(Some("at sha256@"@ + digest_of(d)))),
        ),
        (Phase::RemovingTemp, EventView::Failed(cause)) => finish(
            d,
            failure(
                true,
                "Unable to remove temporary backup file '"@,
                temp_path(d.target),
                "' after verifying that it is a duplicate of the existing file."@,
                delete_advice(),
                cause,
            ),
        ),
        (Phase::CheckingExisting, EventView::Exists(there)) => if there {
            proceed(
                Download { existed: true, ..d },
                Phase::RemovingTarget,
                ActionView::RemoveTarget(d.target),
            )
        } else {
            proceed(
                Download { existed: false, ..d },
                Phase::Renaming,
                ActionView::Rename { from: temp_path(d.target), to: d.target },
            )
        },
        (Phase::RemovingTarget, EventView::Completed) => proceed(
            d,
            Phase::Renaming,
            ActionView::Rename { from: temp_path(d.target), to: d.target },
        ),
        (Phase::RemovingTarget, EventView::Failed(cause)) => finish(
            d,
            failure(
                true,
                "Unable to remove original backup file '"@,
                d.target,
                "' prior to replacement with new file."@,
                delete_advice(),
                cause,
            ),
        ),
        (Phase::Renaming, EventView::Completed) => proceed(
            d,
            Phase::WritingSidecar,
            ActionView::WriteSidecar { path: sidecar_path(d.target), content: digest_of(d) },
        ),
        (Phase::Renaming, EventView::Failed(cause)) => finish(
            d,
            failure(
                true,
                "Unable to move temporary backup file '"@ + temp_path(d.target)
                    + "' to final location '"@,
                d.target,
                "'."@,
                write_advice(),
                cause,
            ),
        ),
        (Phase::WritingSidecar, EventView::Completed) => finish(
            d,
            Ok(
                if d.existed {
                    BackupStateView::Updated(Some(written_detail(d)))
                } else {
                    BackupStateView::New(Some(written_detail(d)))
                },
            ),
        ),
        (Phase::WritingSidecar, EventView::Failed(cause)) => finish(
            d,
            failure(
                true,
                "Unable to write SHA-256 checksum file for backup file '"@,
                d.target,
                "'."@,
                write_advice(),
                cause,
            ),
        ),
        _ => finish(d, unexpected(d)),
    }
}

/// Builds the error for a failed action.
fn failed(user: bool, before: &str, what: &str, after: &str, advice: &str, cause: String) -> (outcome:
    Result<BackupState, Error>)
    ensures
        outcome_view(outcome) == failure(user, before@, what@, after@, advice@, cause@),
{
    let message = surround(before, what, after);
    if user {
        Err(user_with_internal(message, advice, cause))
    } else {
        Err(system_with_internal(message, advice, cause))
    }
}

/// The download of one file.
pub struct HttpFileBackup {
    url: String,
    content_type: Option<String>,
    credentials: Credentials,
    last_modified: Option<Timestamp>,
    target: String,
    phase: Phase,
    hasher: Hasher,
    status: u16,
    existed: bool,
    pending: Option<Result<BackupState, Error>>,
}

impl View for HttpFileBackup {
    type V = Download;

    closed spec fn view(&self) -> Download {
        Download {
            url: self.url@,
            content_type: match self.content_type {
                Some(t) => Some(t@),
                None => None,
            },
            credentials: self.credentials@,
            last_modified: self.last_modified,
            target: self.target@,
            phase: self.phase,
            received: self.hasher.fed(),
            status: self.status,
            existed: self.existed,
            pending: match self.pending {
                Some(outcome) => Some(outcome_view(outcome)),
                None => None,
            },
        }
    }
}

/// A download that has not begun.
pub open spec fn fresh(
    url: Seq<char>,
    content_type: Option<Seq<char>>,
    credentials: CredentialsView,
    last_modified: Option<Timestamp>,
    target: Seq<char>,
) -> Download {
    Download {
        url,
        content_type,
        credentials,
        last_modified,
        target,
        phase: Phase::Start,
        received: Seq::empty(),
        status: 0,
        existed: false,
        pending: None,
    }
}

/// Downloading files. The engine itself holds nothing: the connections
/// belong to whoever drives the downloads.
#[derive(Clone, Copy, Debug)]
pub struct HttpFileEngine;

impl HttpFileEngine {
    pub fn new() -> (engine: HttpFileEngine) {
        HttpFileEngine
    }

    /// The download of `entity` to the path `target`, not yet begun.
    pub fn backup(&self, entity: &HttpFile, target: &str) -> (backup: HttpFileBackup)
        ensures
            backup@ == fresh(
                entity.url@,
                match entity.content_type {
                    Some(t) => Some(t@),
                    None => None,
                },
                entity.credentials@,
                entity.last_modified,
                target@,
            ),
    {
        HttpFileBackup::new(entity, target)
    }
}

impl HttpFileBackup {
    /// The download of `entity` to the path `target`, not yet begun.
    pub fn new(entity: &HttpFile, target: &str) -> (backup: HttpFileBackup)
        ensures
            backup@ == fresh(
                entity.url@,
                match entity.content_type {
                    Some(t) => Some(t@),
                    None => None,
                },
                entity.credentials@,
                entity.last_modified,
                target@,
            ),
    {
        HttpFileBackup {
            url: entity.url.clone(),
            content_type: match &entity.content_type {
                Some(t) => Some(t.clone()),
                None => None,
            },
            credentials: entity.credentials.duplicate(),
            last_modified: entity.last_modified,
            target: String::from_str(target),
            phase: Phase::Start,
            hasher: Hasher::new(),
            status: 0,
            existed: false,
            pending: None,
        }
    }

    /// Whether the download has ended.
    pub fn is_finished(&self) -> (b: bool)
        ensures
            b == (self@.phase == Phase::Finished),
    {
        match self.phase {
            Phase::Finished => true,
            _ => false,
        }
    }

    fn temp(&self) -> (path: String)
        ensures
            path@ == temp_path(self@.target),
    {
        join(self.target.as_str(), ".tmp")
    }

    fn sidecar(&self) -> (path: String)
        ensures
            path@ == sidecar_path(self@.target),
    {
        join(self.target.as_str(), ".sha256")
    }

    fn request(&self) -> (request: HttpRequest)
        ensures
            request@ == request_of(self@),
    {
        let mut headers: Vec<(String, String)> = Vec::new();
        headers.push((String::from_str("User-Agent"), String::from_str("SierraSoftworks/github-backup")));
        match &self.content_type {
            Some(t) => {
                headers.push((String::from_str("Accept"), t.clone()));
            },
            None => {},
        }
        let request = HttpRequest {
            url: self.url.clone(),
            headers,
            credentials: self.credentials.duplicate(),
        };
        proof {
            assert(request@.headers =~= request_of(self@).headers);
        }
        request
    }

    fn written(&self) -> (detail: String)
        ensures
            detail@ == written_detail(self@),
    {
        let time = match &self.last_modified {
            Some(t) => t.to_iso8601(),
            None => None,
        };
        match time {
            Some(t) => join("at ", t.as_str()),
            None => join("at sha256:", self.hasher.hex().as_str()),
        }
    }

    fn done(&mut self, outcome: Result<BackupState, Error>) -> (action: HttpFileAction)
        ensures
            final(self)@ == finish(old(self)@, outcome_view(outcome)).next,
            action@ == finish(old(self)@, outcome_view(outcome)).action,
    {
        self.phase = Phase::Finished;
        HttpFileAction::Done(outcome)
    }

    fn give_up(&mut self, outcome: Result<BackupState, Error>) -> (action: HttpFileAction)
        ensures
            final(self)@ == abandon(old(self)@, outcome_view(outcome)).next,
            action@ == abandon(old(self)@, outcome_view(outcome)).action,
    {
        self.phase = Phase::Discarding;
        self.pending = Some(outcome);
        HttpFileAction::Discard(self.temp())
    }

    fn go(&mut self, phase: Phase, action: HttpFileAction) -> (out: HttpFileAction)
        ensures
            final(self)@ == proceed(old(self)@, phase, action@).next,
            out@ == action@,
    {
        self.phase = phase;
        action
    }

    fn surprised(&mut self) -> (action: HttpFileAction)
        ensures
            final(self)@ == finish(old(self)@, unexpected(old(self)@)).next,
            action@ == finish(old(self)@, unexpected(old(self)@)).action,
    {
        let message = surround(
            "The backup of '",
            self.target.as_str(),
            "' received an event that it was not waiting for.",
        );
        self.done(Err(system(message, "Please report this issue to us on GitHub.")))
    }

    fn send_or_skip(&mut self, cancelled: bool) -> (action: HttpFileAction)
        ensures
            final(self)@ == before_request(old(self)@, cancelled).next,
            action@ == before_request(old(self)@, cancelled).action,
    {
        if cancelled {
            self.done(Ok(BackupState::Skipped))
        } else {
            let request = self.request();
            self.go(Phase::Requesting, HttpFileAction::Send(request))
        }
    }

    fn reject(&mut self, body: String) -> (action: HttpFileAction)
        ensures
            final(self)@ == finish(old(self)@, rejected(old(self)@, body@)).next,
            action@ == finish(old(self)@, rejected(old(self)@, body@)).action,
    {
        let mut message = String::from_str("Got an HTTP ");
        push_decimal(&mut message, self.status as usize);
        message.append(" status code when trying to fetch '");
        message.append(self.url.as_str());
        message.append("'.");
        let error = user_with_internal(
            message,
            "Make sure that you can access the URL and update your backup configuration if not.",
            body,
        ).with_status(self.status);
        self.done(Err(error))
    }

    fn when_start(&mut self, event: HttpFileEvent, cancelled: bool) -> (action: HttpFileAction)
        requires
            old(self)@.phase == Phase::Start,
        ensures
            final(self)@ == step_spec(old(self)@, event@, cancelled).next,
            action@ == step_spec(old(self)@, event@, cancelled).action,
    {
        match event {
            HttpFileEvent::Started => {
                let target = self.target.clone();
                self.go(Phase::EnsuringParent, HttpFileAction::EnsureParent(target))
            },
            _ => self.surprised(),
        }
    }

    fn when_ensuring_parent(&mut self, event: HttpFileEvent, cancelled: bool) -> (action: HttpFileAction)
        requires
            old(self)@.phase == Phase::EnsuringParent,
        ensures
            final(self)@ == step_spec(old(self)@, event@, cancelled).next,
            action@ == step_spec(old(self)@, event@, cancelled).action,
    {
        match event {
            HttpFileEvent::Completed => {
                if self.last_modified.is_some() {
                    let target = self.target.clone();
                    self.go(Phase::CheckingTarget, HttpFileAction::StatTarget(target))
                } else {
                    self.send_or_skip(cancelled)
                }
            },
            HttpFileEvent::Failed(cause) => {
                let outcome = failed(
                    true,
                    "Unable to create the backup directory for '",
                    self.target.as_str(),
                    "'",
                    "Make sure that you have permission to create the directory.",
                    cause,
                );
                self.done(outcome)
            },
            _ => self.surprised(),
        }
    }

    fn when_checking_target(&mut self, event: HttpFileEvent, cancelled: bool) -> (action: HttpFileAction)
        requires
            old(self)@.phase == Phase::CheckingTarget,
        ensures
            final(self)@ == step_spec(old(self)@, event@, cancelled).next,
            action@ == step_spec(old(self)@, event@, cancelled).action,
    {
        match event {
            HttpFileEvent::Modified(local) => {
                let fresh_enough = match (&local, &self.last_modified) {
                    (Some(l), Some(origin)) => l.is_not_before(origin),
                    _ => false,
                };
                if fresh_enough {
                    let detail = match local {
                        Some(l) => match l.to_iso8601() {
                            Some(t) => Some(join("since ", t.as_str())),
                            None => None,
                        },
                        None => None,
                    };
                    self.done(Ok(BackupState::Unchanged(detail)))
                } else {
                    self.send_or_skip(cancelled)
                }
            },
            _ => self.surprised(),
        }
    }

    fn when_requesting(&mut self, event: HttpFileEvent, cancelled: bool) -> (action: HttpFileAction)
        requires
            old(self)@.phase == Phase::Requesting,
        ensures
            final(self)@ == step_spec(old(self)@, event@, cancelled).next,
            action@ == step_spec(old(self)@, event@, cancelled).action,
    {
        match event {
            HttpFileEvent::Response(status) => {
                if !succeeded(status) {
                    self.status = status;
                    self.go(Phase::ReadingError, HttpFileAction::ReadErrorBody)
                } else if cancelled {
                    self.done(Ok(BackupState::Skipped))
                } else {
                    let temp = self.temp();
                    self.go(Phase::OpeningTemp, HttpFileAction::CreateTemp(temp))
                }
            },
            HttpFileEvent::Failed(cause) => {
                let outcome = failed(
                    false,
                    "Unable to fetch '",
                    self.url.as_str(),
                    "'.",
                    "Make sure that your internet connectivity is working correctly and try again.",
                    cause,
                );
                self.done(outcome)
            },
            _ => self.surprised(),
        }
    }

    fn when_reading_error(&mut self, event: HttpFileEvent, cancelled: bool) -> (action: HttpFileAction)
        requires
            old(self)@.phase == Phase::ReadingError,
        ensures
            final(self)@ == step_spec(old(self)@, event@, cancelled).next,
            action@ == step_spec(old(self)@, event@, cancelled).action,
    {
        match event {
            HttpFileEvent::Body(body) => self.reject(body),
            HttpFileEvent::Failed(cause) => self.reject(cause),
            _ => self.surprised(),
        }
    }

    fn when_opening_temp(&mut self, event: HttpFileEvent, cancelled: bool) -> (action: HttpFileAction)
        requires
            old(self)@.phase == Phase::OpeningTemp,
        ensures
            final(self)@ == step_spec(old(self)@, event@, cancelled).next,
            action@ == step_spec(old(self)@, event@, cancelled).action,
    {
        match event {
            HttpFileEvent::Completed => self.go(Phase::Streaming, HttpFileAction::ReadChunk),
            HttpFileEvent::Failed(cause) => {
                let temp = self.temp();
                let outcome = failed(
                    true,
                    "Unable to create temporary backup file '",
                    temp.as_str(),
                    "'.",
                    "Make sure that you have permission to write to this file/directory and try again.",
                    cause,
                );
                self.done(outcome)
            },
            _ => self.surprised(),
        }
    }

    fn when_streaming(&mut self, event: HttpFileEvent, cancelled: bool) -> (action: HttpFileAction)
        requires
            old(self)@.phase == Phase::Streaming,
        ensures
            final(self)@ == step_spec(old(self)@, event@, cancelled).next,
            action@ == step_spec(old(self)@, event@, cancelled).action,
    {
        match event {
            HttpFileEvent::Chunk(bytes) => {
                if cancelled {
                    self.give_up(Ok(BackupState::Skipped))
                } else {
                    self.hasher.update(bytes.as_slice());
                    self.go(Phase::Writing, HttpFileAction::Write(bytes))
                }
            },
            HttpFileEvent::EndOfBody => {
                let sidecar = self.sidecar();
                self.go(Phase::ReadingSidecar, HttpFileAction::ReadSidecar(sidecar))
            },
            HttpFileEvent::Failed(cause) => {
                let outcome = failed(
                    false,
                    "Failed to read the response from '",
                    self.url.as_str(),
                    "'.",
                    "Make sure that your internet connectivity is working correctly and try again.",
                    cause,
                );
                self.done(outcome)
            },
            _ => self.surprised(),
        }
    }

    fn when_writing(&mut self, event: HttpFileEvent, cancelled: bool) -> (action: HttpFileAction)
        requires
            old(self)@.phase == Phase::Writing,
        ensures
            final(self)@ == step_spec(old(self)@, event@, cancelled).next,
            action@ == step_spec(old(self)@, event@, cancelled).action,
    {
        match event {
            HttpFileEvent::Completed => self.go(Phase::Streaming, HttpFileAction::ReadChunk),
            HttpFileEvent::Failed(cause) => {
                let temp = self.temp();
                let outcome = failed(
                    true,
                    "Failed to write to temporary backup file '",
                    temp.as_str(),
                    "'.",
                    "Make sure that you have permission to write to this file/directory and try again.",
                    cause,
                );
                self.give_up(outcome)
            },
            _ => self.surprised(),
        }
    }

    fn when_discarding(&mut self, event: HttpFileEvent, cancelled: bool) -> (action: HttpFileAction)
        requires
            old(self)@.phase == Phase::Discarding,
        ensures
            final(self)@ == step_spec(old(self)@, event@, cancelled).next,
            action@ == step_spec(old(self)@, event@, cancelled).action,
    {
        match event {
            HttpFileEvent::Completed | HttpFileEvent::Failed(_) => {
                let ghost before = self@;
                match self.pending.take() {
                    Some(outcome) => self.done(outcome),
                    None => {
                        let message = surround(
                            "The backup of '",
                            self.target.as_str(),
                            "' received an event that it was not waiting for.",
                        );
                        self.done(
                            Err(system(message, "Please report this issue to us on GitHub.")),
                        )
                    },
                }
            },
            _ => self.surprised(),
        }
    }

    fn when_reading_sidecar(&mut self, event: HttpFileEvent, cancelled: bool) -> (action: HttpFileAction)
        requires
            old(self)@.phase == Phase::ReadingSidecar,
        ensures
            final(self)@ == step_spec(old(self)@, event@, cancelled).next,
            action@ == step_spec(old(self)@, event@, cancelled).action,
    {
        match event {
            HttpFileEvent::Sidecar(existing) => {
                let digest = self.hasher.hex();
                let same = match &existing {
                    Some(e) => same_str(e.as_str(), digest.as_str()),
                    None => false,
                };
                if same {
                    let temp = self.temp();
                    self.go(Phase::RemovingTemp, HttpFileAction::RemoveTemp(temp))
                } else {
                    let target = self.target.clone();
                    self.go(Phase::CheckingExisting, HttpFileAction::CheckTarget(target))
                }
            },
            _ => self.surprised(),
        }
    }

    fn when_removing_temp(&mut self, event: HttpFileEvent, cancelled: bool) -> (action: HttpFileAction)
        requires
            old(self)@.phase == Phase::RemovingTemp,
        ensures
            final(self)@ == step_spec(old(self)@, event@, cancelled).next,
            action@ == step_spec(old(self)@, event@, cancelled).action,
    {
        match event {
            HttpFileEvent::Completed => {
                let detail = join("at sha256@", self.hasher.hex().as_str());
                self.done(Ok(BackupState::Unchanged(Some(detail))))
            },
            HttpFileEvent::Failed(cause) => {
                let temp = self.temp();
                let outcome = failed(
                    true,
                    "Unable to remove temporary backup file '",
                    temp.as_str(),
                    "' after verifying that it is a duplicate of the existing file.",
                    "Make sure that you have write (and delete) permission on the backup directory and try again.",
                    cause,
                );
                self.done(outcome)
            },
            _ => self.surprised(),
        }
    }

    fn when_checking_existing(&mut self, event: HttpFileEvent, cancelled: bool) -> (action: HttpFileAction)
        requires
            old(self)@.phase == Phase::CheckingExisting,
        ensures
            final(self)@ == step_spec(old(self)@, event@, cancelled).next,
            action@ == step_spec(old(self)@, event@, cancelled).action,
    {
        match event {
            HttpFileEvent::Exists(there) => {
                self.existed = there;
                if there {
                    let target = self.target.clone();
                    self.go(Phase::RemovingTarget, HttpFileAction::RemoveTarget(target))
                } else {
                    let from = self.temp();
                    let to = self.target.clone();
                    self.go(Phase::Renaming, HttpFileAction::Rename { from, to })
                }
            },
            _ => self.surprised(),
        }
    }

    fn when_removing_target(&mut self, event: HttpFileEvent, cancelled: bool) -> (action: HttpFileAction)
        requires
            old(self)@.phase == Phase::RemovingTarget,
        ensures
            final(self)@ == step_spec(old(self)@, event@, cancelled).next,
            action@ == step_spec(old(self)@, event@, cancelled).action,
    {
        match event {
            HttpFileEvent::Completed => {
                let from = self.temp();
                let to = self.target.clone();
                self.go(Phase::Renaming, HttpFileAction::Rename { from, to })
            },
            HttpFileEvent::Failed(cause) => {
                let outcome = failed(
                    true,
                    "Unable to remove original backup file '",
                    self.target.as_str(),
                    "' prior to replacement with new file.",
                    "Make sure that you have write (and delete) permission on the backup directory and try again.",
                    cause,
                );
                self.done(outcome)
            },
            _ => self.surprised(),
        }
    }

    fn when_renaming(&mut self, event: HttpFileEvent, cancelled: bool) -> (action: HttpFileAction)
        requires
            old(self)@.phase == Phase::Renaming,
        ensures
            final(self)@ == step_spec(old(self)@, event@, cancelled).next,
            action@ == step_spec(old(self)@, event@, cancelled).action,
    {
        match event {
            HttpFileEvent::Completed => {
                let path = self.sidecar();
                let content = self.hasher.hex();
                self.go(Phase::WritingSidecar, HttpFileAction::WriteSidecar { path, content })
            },
            HttpFileEvent::Failed(cause) => {
                let temp = self.temp();
                let before = surround(
                    "Unable to move temporary backup file '",
                    temp.as_str(),
                    "' to final location '",
                );
                let outcome = failed(
                    true,
                    before.as_str(),
                    self.target.as_str(),
                    "'.",
                    "Make sure that you have permission to write to this file/directory and try again.",
                    cause,
                );
                self.done(outcome)
            },
            _ => self.surprised(),
        }
    }

    fn when_writing_sidecar(&mut self, event: HttpFileEvent, cancelled: bool) -> (action: HttpFileAction)
        requires
            old(self)@.phase == Phase::WritingSidecar,
        ensures
            final(self)@ == step_spec(old(self)@, event@, cancelled).next,
            action@ == step_spec(old(self)@, event@, cancelled).action,
    {
        match event {
            HttpFileEvent::Completed => {
                let detail = self.written();
                let state = if self.existed {
                    BackupState::Updated(Some(detail))
                } else {
                    BackupState::New(Some(detail))
                };
                self.done(Ok(state))
            },
            HttpFileEvent::Failed(cause) => {
                let outcome = failed(
                    true,
                    "Unable to write SHA-256 checksum file for backup file '",
                    self.target.as_str(),
                    "'.",
                    "Make sure that you have permission to write to this file/directory and try again.",
                    cause,
                );
                self.done(outcome)
            },
            _ => self.surprised(),
        }
    }

    /// Takes note of what happened to the last action, and says what is to
    /// be done next. `cancelled` is what the cancellation flag reads now.
    pub fn step(&mut self, event: HttpFileEvent, cancelled: bool) -> (action: HttpFileAction)
        ensures
            final(self)@ == step_spec(old(self)@, event@, cancelled).next,
            action@ == step_spec(old(self)@, event@, cancelled).action,
    {
        match self.phase {
            Phase::Start => self.when_start(event, cancelled),
            Phase::EnsuringParent => self.when_ensuring_parent(event, cancelled),
            Phase::CheckingTarget => self.when_checking_target(event, cancelled),
            Phase::Requesting => self.when_requesting(event, cancelled),
            Phase::ReadingError => self.when_reading_error(event, cancelled),
            Phase::OpeningTemp => self.when_opening_temp(event, cancelled),
            Phase::Streaming => self.when_streaming(event, cancelled),
            Phase::Writing => self.when_writing(event, cancelled),
            Phase::Discarding => self.when_discarding(event, cancelled),
            Phase::ReadingSidecar => self.when_reading_sidecar(event, cancelled),
            Phase::RemovingTemp => self.when_removing_temp(event, cancelled),
            Phase::CheckingExisting => self.when_checking_existing(event, cancelled),
            Phase::RemovingTarget => self.when_removing_target(event, cancelled),
            Phase::Renaming => self.when_renaming(event, cancelled),
            Phase::WritingSidecar => self.when_writing_sidecar(event, cancelled),
            Phase::Finished => self.surprised(),
        }
    }
}

/// The states in which nothing has been decided about the target yet: the
/// download has not got past the end of the body.
pub open spec fn before_digest(phase: Phase) -> bool {
    phase == Phase::Start || phase == Phase::EnsuringParent || phase == Phase::CheckingTarget
        || phase == Phase::Requesting || phase == Phase::ReadingError || phase == Phase::OpeningTemp
        || phase == Phase::Streaming || phase == Phase::Writing || phase == Phase::Discarding
}

/// The actions that change the target or the digest beside it.
pub open spec fn touches_target(action: ActionView) -> bool {
    action is RemoveTarget || action is Rename || action is WriteSidecar
}

/// A target that is not older than its origin is left alone: the download
/// creates the directory, looks at the target and ends as unchanged,
/// without a request being sent, whatever the cancellation flag reads.
pub proof fn law_fresh_target_is_unchanged(
    d: Download,
    origin: Timestamp,
    local: Timestamp,
    c1: bool,
    c2: bool,
    c3: bool,
)
    requires
        d.phase == Phase::Start,
        d.last_modified == Some(origin),
        not_before(local, origin),
    ensures
        ({
            let s1 = step_spec(d, EventView::Started, c1);
            let s2 = step_spec(s1.next, EventView::Completed, c2);
            let s3 = step_spec(s2.next, EventView::Modified(Some(local)), c3);
            &&& s1.action == ActionView::EnsureParent(d.target)
            &&& s2.action == ActionView::StatTarget(d.target)
            &&& s3.action == ActionView::Done(Ok(BackupStateView::Unchanged(since_detail(local))))
            &&& s3.next.phase == Phase::Finished
        }),
{
}

/// Until the body has ended, no step changes the target or its digest,
/// and the download stays in such a state, ends, or goes on to compare
/// digests.
pub proof fn law_target_untouched_while_downloading(d: Download, event: EventView, cancelled: bool)
    requires
        before_digest(d.phase),
    ensures
        !touches_target(step_spec(d, event, cancelled).action),
        before_digest(step_spec(d, event, cancelled).next.phase) || step_spec(
            d,
            event,
            cancelled,
        ).next.phase == Phase::Finished || step_spec(d, event, cancelled).next.phase
            == Phase::ReadingSidecar,
{
}

/// A backup that is cancelled while the body arrives discards its
/// temporary file and ends as skipped, whether discarding worked or not.
pub proof fn law_cancel_while_streaming(
    d: Download,
    bytes: Seq<u8>,
    discarded: EventView,
    later: bool,
)
    requires
        d.phase == Phase::Streaming,
        discarded is Completed || discarded is Failed,
    ensures
        ({
            let s1 = step_spec(d, EventView::Chunk(bytes), true);
            let s2 = step_spec(s1.next, discarded, later);
            &&& s1.action == ActionView::Discard(temp_path(d.target))
            &&& s2.action == ActionView::Done(Ok(BackupStateView::Skipped))
            &&& s2.next.phase == Phase::Finished
        }),
{
}

/// A first download, with no digest and no target there and no time of
/// change known, moves the file into place, writes its digest and ends as
/// new, naming the digest.
pub proof fn law_first_download_is_new(d: Download, c1: bool, c2: bool, c3: bool, c4: bool, c5: bool)
    requires
        d.phase == Phase::Streaming,
        d.last_modified is None,
    ensures
        ({
            let s1 = step_spec(d, EventView::EndOfBody, c1);
            let s2 = step_spec(s1.next, EventView::Sidecar(None), c2);
            let s3 = step_spec(s2.next, EventView::Exists(false), c3);
            let s4 = step_spec(s3.next, EventView::Completed, c4);
            let s5 = step_spec(s4.next, EventView::Completed, c5);
            &&& s1.action == ActionView::ReadSidecar(sidecar_path(d.target))
            &&& s2.action == ActionView::CheckTarget(d.target)
            &&& s3.action == ActionView::Rename { from: temp_path(d.target), to: d.target }
            &&& s4.action == ActionView::WriteSidecar {
                path: sidecar_path(d.target),
                content: hex_text(sha256(d.received)),
            }
            &&& s5.action == ActionView::Done(
                Ok(BackupStateView::New(Some("at sha256:"@ + hex_text(sha256(d.received))))),
            )
        }),
{
}

/// A download of the bytes whose digest stands beside the target removes
/// its temporary file and ends as unchanged, naming the digest; the target
/// and its digest are not touched.
pub proof fn law_same_content_is_unchanged(d: Download, c1: bool, c2: bool, c3: bool)
    requires
        d.phase == Phase::Streaming,
    ensures
        ({
            let s1 = step_spec(d, EventView::EndOfBody, c1);
            let s2 = step_spec(s1.next, EventView::Sidecar(Some(hex_text(sha256(d.received)))), c2);
            let s3 = step_spec(s2.next, EventView::Completed, c3);
            &&& s1.action == ActionView::ReadSidecar(sidecar_path(d.target))
            &&& s2.action == ActionView::RemoveTemp(temp_path(d.target))
            &&& s3.action == ActionView::Done(
                Ok(BackupStateView::Unchanged(Some("at sha256@"@ + hex_text(sha256(d.received))))),
            )
        }),
{
}

/// Identical bytes, downloaded twice: what the first download writes as
/// the digest is what makes the second one end as unchanged. The first
/// download finds neither a digest nor the target, the second finds the
/// digest that the first wrote.
pub proof fn law_identical_content_twice(first: Download, second: Download)
    requires
        first.phase == Phase::Streaming,
        second.phase == Phase::Streaming,
        first.received == second.received,
        first.last_modified is None,
    ensures
        ({
            let a1 = step_spec(first, EventView::EndOfBody, false);
            let a2 = step_spec(a1.next, EventView::Sidecar(None), false);
            let a3 = step_spec(a2.next, EventView::Exists(false), false);
            let a4 = step_spec(a3.next, EventView::Completed, false);
            let a5 = step_spec(a4.next, EventView::Completed, false);
            let written = a4.action->WriteSidecar_content;
            let b1 = step_spec(second, EventView::EndOfBody, false);
            let b2 = step_spec(b1.next, EventView::Sidecar(Some(written)), false);
            let b3 = step_spec(b2.next, EventView::Completed, false);
            &&& a4.action is WriteSidecar
            &&& a5.action == ActionView::Done(Ok(BackupStateView::New(Some("at sha256:"@ + written))))
            &&& b2.action == ActionView::RemoveTemp(temp_path(second.target))
            &&& b3.action == ActionView::Done(
                Ok(BackupStateView::Unchanged(Some("at sha256@"@ + written))),
            )
        }),
{
}

} // verus!
