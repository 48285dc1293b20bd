//! The engine that mirrors a repository.
//!
//! Cloning and fetching are the work of the git library and the network, so
//! this engine is a machine too: it says what is to be done, and decides on
//! what it is told how the backup ends. A repository that is not there yet
//! is cloned bare; one that is there is fetched into.
use vstd::prelude::*;
use super::http_file::{outcome_view, OutcomeView};
use super::{BackupState, BackupStateView};
use crate::entities::credentials::account_of;
use crate::entities::git_repo::GitRepo;
use crate::errors::{
    system_error, system_with_internal, user_error, user_with_internal, Error, ErrorView,
};
use crate::text::{copy_texts, join, surround, texts_view};

verus! {

/// Where the mirroring of a repository stands.
#[derive(Clone, Copy, Debug, PartialEq, Eq, Structural)]
pub enum GitPhase {
    Start,
    EnsuringDirectory,
    Probing,
    Cloning,
    Fetching,
    Finished,
}

/// The part of a clone or a fetch that can fail.
#[derive(Clone, Copy, Debug, PartialEq, Eq, Structural)]
pub enum GitStage {
    /// Preparing the clone.
    Prepare,
    /// Opening the repository that is there.
    Open,
    /// Reading or writing the configuration of the repository.
    Configure,
    /// Finding the remote to fetch from.
    FindRemote,
    /// Giving the remote its refspecs.
    ConfigureRemote,
    /// Connecting to the remote.
    Connect,
    /// Negotiating what to fetch.
    PrepareFetch,
    /// Receiving the objects.
    Transfer,
    /// Reading the commit that `HEAD` points to.
    Head,
}

/// What happened to the last action.
pub enum GitEvent {
    /// The backup begins.
    Started,
    /// The action was carried out.
    Completed,
    /// The action failed, for the reason given.
    Failed(String),
    /// Whether a repository is there.
    Exists(bool),
    /// The clone is complete, and `HEAD` points to this commit.
    Cloned(String),
    /// The fetch is complete; `HEAD` pointed to `before`, if to anything,
    /// and points to `head` now.
    Fetched { before: Option<String>, head: String },
    /// The clone or the fetch failed at `stage`.
    Broke { stage: GitStage, cause: String },
}

/// An event as a mathematical object.
pub enum GitEventView {
    Started,
    Completed,
    Failed(Seq<char>),
    Exists(bool),
    Cloned(Seq<char>),
    Fetched { before: Option<Seq<char>>, head: Seq<char> },
    Broke { stage: GitStage, cause: Seq<char> },
}

impl View for GitEvent {
    type V = GitEventView;

    open spec fn view(&self) -> GitEventView {
        match self {
            GitEvent::Started => GitEventView::Started,
            GitEvent::Completed => GitEventView::Completed,
            GitEvent::Failed(c) => GitEventView::Failed(c@),
            GitEvent::Exists(b) => GitEventView::Exists(*b),
            GitEvent::Cloned(h) => GitEventView::Cloned(h@),
            GitEvent::Fetched { before, head } => GitEventView::Fetched {
                before: match before {
                    Some(b) => Some(b@),
                    None => None,
                },
                head: head@,
            },
            GitEvent::Broke { stage, cause } => GitEventView::Broke { stage: *stage, cause: cause@ },
        }
    }
}

/// What the git library is asked to do: the remote, the directory, the
/// name and password to answer with where the remote asks for them, the
/// refspecs to fetch, and the committer to fall back on where the
/// repository names none.
pub struct GitOrder {
    pub url: String,
    pub target: String,
    pub account: Option<(String, String)>,
    pub refspecs: Vec<String>,
    pub committer_name: String,
    pub committer_email: String,
}

/// An order as a mathematical object.
pub struct GitOrderView {
    pub url: Seq<char>,
    pub target: Seq<char>,
    pub account: Option<(Seq<char>, Seq<char>)>,
    pub refspecs: Seq<Seq<char>>,
    pub committer_name: Seq<char>,
    pub committer_email: Seq<char>,
}

impl View for GitOrder {
    type V = GitOrderView;

    open spec fn view(&self) -> GitOrderView {
        GitOrderView {
            url: self.url@,
            target: self.target@,
            account: match self.account {
                Some(a) => Some((a.0@, a.1@)),
                None => None,
            },
            refspecs: texts_view(self.refspecs@),
            committer_name: self.committer_name@,
            committer_email: self.committer_email@,
        }
    }
}

/// What is to be done next.
pub enum GitAction {
    /// Create the directory at the path, and those above it.
    EnsureDirectory(String),
    /// Find out whether `<path>/.git` is there.
    Probe(String),
    /// Clone bare, without checking anything out; then make sure of the
    /// committer, mark the repository as bare, and read `HEAD`.
    Clone(GitOrder),
    /// Open the repository, make sure of the committer, read `HEAD`, fetch
    /// the refspecs and all tags from the remote, writing packed refs
    /// only, and read `HEAD` again.
    Fetch(GitOrder),
    /// The backup has ended with this outcome.
    Done(Result<BackupState, Error>),
}

/// An action as a mathematical object.
pub enum GitActionView {
    EnsureDirectory(Seq<char>),
    Probe(Seq<char>),
    Clone(GitOrderView),
    Fetch(GitOrderView),
    Done(OutcomeView),
}

impl View for GitAction {
    type V = GitActionView;

    open spec fn view(&self) -> GitActionView {
        match self {
            GitAction::EnsureDirectory(p) => GitActionView::EnsureDirectory(p@),
            GitAction::Probe(p) => GitActionView::Probe(p@),
            GitAction::Clone(o) => GitActionView::Clone(o@),
            GitAction::Fetch(o) => GitActionView::Fetch(o@),
            GitAction::Done(outcome) => GitActionView::Done(outcome_view(*outcome)),
        }
    }
}

/// The mirroring of a repository as a mathematical object.
pub struct Mirror {
    pub order: GitOrderView,
    pub phase: GitPhase,
}

/// A step of the mirroring.
pub struct GitStep {
    pub next: Mirror,
    pub action: GitActionView,
}

/// The refspec that fetches every branch.
pub open spec fn all_branches() -> Seq<char> {
    "+refs/heads/*:refs/remotes/origin/*"@
}

/// The refspecs to fetch: those that are named, every branch where none
/// are.
pub open spec fn refspecs_of(named: Option<Seq<Seq<char>>>) -> Seq<Seq<char>> {
    match named {
        Some(specs) => specs,
        None => seq![all_branches()],
    }
}

/// The order for the repository `url` in the directory `target`.
pub open spec fn order_for(
    url: Seq<char>,
    target: Seq<char>,
    account: Option<(Seq<char>, Seq<char>)>,
    named: Option<Seq<Seq<char>>>,
) -> GitOrderView {
    GitOrderView {
        url,
        target,
        account,
        refspecs: refspecs_of(named),
        committer_name: "github-backup"@,
        committer_email: "github-backup@sierrasoftworks.github.io"@,
    }
}

/// The error for a clone or a fetch that broke at `stage`.
pub open spec fn breakage(o: GitOrderView, cloning: bool, stage: GitStage, cause: Seq<char>) -> ErrorView {
    let check_remote = "Make sure that the repository is available and correctly configured."@;
    let error = match stage {
        GitStage::Prepare => system_error(
            "Failed to clone the repository "@ + o.url + "."@,
            "Please make sure that the target directory is writable and that the repository is accessible."@,
        ),
        GitStage::Open => user_error(
            "Failed to open the repository '"@ + o.url + "' at '"@ + o.target + "'"@,
            "Make sure that the target directory is a valid git repository."@,
        ),
        GitStage::Configure => system_error(
            "Unable to update the git configuration of the repository at '"@ + o.target + "'"@,
            "Make sure that the git repository has been correctly initialized."@,
        ),
        GitStage::FindRemote => user_error(
            "Failed to find the remote '"@ + o.url + "' in the repository '"@ + o.target + "'"@,
            "Make sure that the repository is correctly configured and that the remote exists."@,
        ),
        GitStage::ConfigureRemote => user_error(
            "Failed to configure the remote '"@ + o.url + "' in the repository '"@ + o.target
                + "' to fetch all branches."@,
            "Make sure that the repository is correctly configured and that the remote exists."@,
        ),
        GitStage::Connect => user_error(
            "Unable to establish connection to remote git repository '"@ + o.url + "'"@,
            check_remote,
        ),
        GitStage::PrepareFetch => user_error(
            "Unable to prepare fetch from remote git repository '"@ + o.url + "'"@,
            check_remote,
        ),
        GitStage::Transfer => if cloning {
            system_error(
                "Unable to clone remote repository '"@ + o.url + "'"@,
                "Make sure that your internet connectivity is working correctly, and that your local git configuration is able to clone this repo."@,
            )
        } else {
            user_error(
                "Unable to fetch from remote git repository '"@ + o.url + "'"@,
                check_remote,
            )
        },
        GitStage::Head => user_error(
            "The repository '"@ + o.url
                + "' did not have a valid HEAD, which may indicate that there is something wrong with the source repository."@,
            "Make sure that the remote repository is valid."@,
        ),
    };
    ErrorView { cause: Some(cause), ..error }
}

/// The outcome of a fetch after which `HEAD` points to `head`, and
/// pointed to `before`.
pub open spec fn fetched_state(before: Option<Seq<char>>, head: Seq<char>) -> BackupStateView {
    if before == Some(head) {
        BackupStateView::Unchanged(Some("at "@ + head))
    } else {
        BackupStateView::Updated(Some(head))
    }
}

/// The outcome for an event that the mirroring did not wait for.
pub open spec fn git_unexpected(m: Mirror) -> OutcomeView {
    Err(
        system_error(
            "The backup of '"@ + m.order.target + "' received an event that it was not waiting for."@,
            "Please report this issue to us on GitHub."@,
        ),
    )
}

/// The mirroring ends with `outcome`.
pub open spec fn git_finish(m: Mirror, outcome: OutcomeView) -> GitStep {
    GitStep { next: Mirror { phase: GitPhase::Finished, ..m }, action: GitActionView::Done(outcome) }
}

/// What the mirroring in the state `m` does when `event` happens.
pub open spec fn git_step_spec(m: Mirror, event: GitEventView) -> GitStep {
    match (m.phase, event) {
        (GitPhase::Start, GitEventView::Started) => GitStep {
            next: Mirror { phase: GitPhase::EnsuringDirectory, ..m },
            action: GitActionView::EnsureDirectory(m.order.target),
        },
        (GitPhase::EnsuringDirectory, GitEventView::Completed) => GitStep {
            next: Mirror { phase: GitPhase::Probing, ..m },
            action: GitActionView::Probe(m.order.target),
        },
        (GitPhase::EnsuringDirectory, GitEventView::Failed(cause)) => git_finish(
            m,
            Err(
                ErrorView {
                    cause: Some(cause),
                    ..user_error(
                        "Unable to create backup directory '"@ + m.order.target + "'"@,
                        "Make sure that you have permission to create the directory."@,
                    )
                },
            ),
        ),
        (GitPhase::Probing, GitEventView::Exists(there)) => if there {
            GitStep {
                next: Mirror { phase: GitPhase::Fetching, ..m },
                action: GitActionView::Fetch(m.order),
            }
        } else {
            GitStep {
                next: Mirror { phase: GitPhase::Cloning, ..m },
                action: GitActionView::Clone(m.order),
            }
        },
        (GitPhase::Cloning, GitEventView::Cloned(head)) => git_finish(
            m,
            Ok(BackupStateView::New(Some("at "@ + head))),
        ),
        (GitPhase::Cloning, GitEventView::Broke { stage, cause }) => git_finish(
            m,
            Err(breakage(m.order, true, stage, cause)),
        ),
        (GitPhase::Fetching, GitEventView::Fetched { before, head }) => git_finish(
            m,
            Ok(fetched_state(before, head)),
        ),
        (GitPhase::Fetching, GitEventView::Broke { stage, cause }) => git_finish(
            m,
            Err(breakage(m.order, false, stage, cause)),
        ),
        _ => git_finish(m, git_unexpected(m)),
    }
}

/// Mirroring one repository. The engine itself holds nothing.
#[derive(Clone, Copy, Debug)]
pub struct GitEngine;

/// The mirroring of one repository.
pub struct GitBackup {
    order: GitOrder,
    phase: GitPhase,
}

impl View for GitBackup {
    type V = Mirror;

    closed spec fn view(&self) -> Mirror {
        Mirror { order: self.order@, phase: self.phase }
    }
}

fn copy_order(order: &GitOrder) -> (out: GitOrder)
    ensures
        out@ == order@,
{
    GitOrder {
        url: order.url.clone(),
        target: order.target.clone(),
        account: match &order.account {
            Some(a) => Some((a.0.clone(), a.1.clone())),
            None => None,
        },
        refspecs: copy_texts(&order.refspecs),
        committer_name: order.committer_name.clone(),
        committer_email: order.committer_email.clone(),
    }
}

fn broken(order: &GitOrder, cloning: bool, stage: GitStage, cause: String) -> (e: Error)
    ensures
        e@ == breakage(order@, cloning, stage, cause@),
{
    let url = order.url.as_str();
    let target = order.target.as_str();
    let check_remote = "Make sure that the repository is available and correctly configured.";
    match stage {
        GitStage::Prepare => system_with_internal(
            surround("Failed to clone the repository ", url, "."),
            "Please make sure that the target directory is writable and that the repository is accessible.",
            cause,
        ),
        GitStage::Open => {
            let mut message = surround("Failed to open the repository '", url, "' at '");
            message.append(target);
            message.append("'");
            user_with_internal(
                message,
                "Make sure that the target directory is a valid git repository.",
                cause,
            )
        },
        GitStage::Configure => system_with_internal(
            surround("Unable to update the git configuration of the repository at '", target, "'"),
            "Make sure that the git repository has been correctly initialized.",
            cause,
        ),
        GitStage::FindRemote => {
            let mut message = surround("Failed to find the remote '", url, "' in the repository '");
            message.append(target);
            message.append("'");
            user_with_internal(
                message,
                "Make sure that the repository is correctly configured and that the remote exists.",
                cause,
            )
        },
        GitStage::ConfigureRemote => {
            let mut message = surround(
                "Failed to configure the remote '",
                url,
                "' in the repository '",
            );
            message.append(target);
            message.append("' to fetch all branches.");
            user_with_internal(
                message,
                "Make sure that the repository is correctly configured and that the remote exists.",
                cause,
            )
        },
        GitStage::Connect => user_with_internal(
            surround("Unable to establish connection to remote git repository '", url, "'"),
            check_remote,
            cause,
        ),
        GitStage::PrepareFetch => user_with_internal(
            surround("Unable to prepare fetch from remote git repository '", url, "'"),
            check_remote,
            cause,
        ),
        GitStage::Transfer => if cloning {
            system_with_internal(
                surround("Unable to clone remote repository '", url, "'"),
                "Make sure that your internet connectivity is working correctly, and that your local git configuration is able to clone this repo.",
                cause,
            )
        } else {
            user_with_internal(
                surround("Unable to fetch from remote git repository '", url, "'"),
                check_remote,
                cause,
            )
        },
        GitStage::Head => user_with_internal(
            surround(
                "The repository '",
                url,
                "' did not have a valid HEAD, which may indicate that there is something wrong with the source repository.",
            ),
            "Make sure that the remote repository is valid.",
            cause,
        ),
    }
}

impl GitEngine {
    /// The mirroring of `repo` into the directory `target`, not yet begun.
    pub fn backup(&self, repo: &GitRepo, target: &str) -> (backup: GitBackup)
        ensures
            backup@ == (Mirror {
                order: order_for(
                    repo.clone_url@,
                    target@,
                    account_of(repo.credentials@),
                    match repo.refspecs {
                        Some(specs) => Some(texts_view(specs@)),
                        None => None,
                    },
                ),
                phase: GitPhase::Start,
            }),
    {
        let refspecs = match &repo.refspecs {
            Some(specs) => copy_texts(specs),
            None => {
                let mut specs: Vec<String> = Vec::new();
                specs.push(String::from_str("+refs/heads/*:refs/remotes/origin/*"));
                proof {
                    assert(texts_view(specs@) =~= seq![all_branches()]);
                }
                specs
            },
        };
        GitBackup {
            order: GitOrder {
                url: repo.clone_url.clone(),
                target: String::from_str(target),
                account: repo.credentials.account(),
                refspecs,
                committer_name: String::from_str("github-backup"),
                committer_email: String::from_str("github-backup@sierrasoftworks.github.io"),
            },
            phase: GitPhase::Start,
        }
    }

    /// The engine as it is shown to a person.
    pub fn to_string(&self) -> (out: String)
        ensures
            out@ == "git"@,
    {
        String::from_str("git")
    }
}

impl GitBackup {
    /// Whether the mirroring has ended.
    pub fn is_finished(&self) -> (b: bool)
        ensures
            b == (self@.phase == GitPhase::Finished),
    {
        match self.phase {
            GitPhase::Finished => true,
            _ => false,
        }
    }

    fn done(&mut self, outcome: Result<BackupState, Error>) -> (action: GitAction)
        ensures
            final(self)@ == git_finish(old(self)@, outcome_view(outcome)).next,
            action@ == git_finish(old(self)@, outcome_view(outcome)).action,
    {
        self.phase = GitPhase::Finished;
        GitAction::Done(outcome)
    }

    fn surprised(&mut self) -> (action: GitAction)
        ensures
            final(self)@ == git_finish(old(self)@, git_unexpected(old(self)@)).next,
            action@ == git_finish(old(self)@, git_unexpected(old(self)@)).action,
    {
        let message = surround(
            "The backup of '",
            self.order.target.as_str(),
            "' received an event that it was not waiting for.",
        );
        self.done(Err(crate::errors::system(message, "Please report this issue to us on GitHub.")))
    }

    /// Takes note of what happened to the last action, and says what is to
    /// be done next.
    pub fn step(&mut self, event: GitEvent) -> (action: GitAction)
        ensures
            final(self)@ == git_step_spec(old(self)@, event@).next,
            action@ == git_step_spec(old(self)@, event@).action,
    {
        match self.phase {
            GitPhase::Start => match event {
                GitEvent::Started => {
                    self.phase = GitPhase::EnsuringDirectory;
                    GitAction::EnsureDirectory(self.order.target.clone())
                },
                _ => self.surprised(),
            },
            GitPhase::EnsuringDirectory => match event {
                GitEvent::Completed => {
                    self.phase = GitPhase::Probing;
                    GitAction::Probe(self.order.target.clone())
                },
                GitEvent::Failed(cause) => {
                    let message = surround(
                        "Unable to create backup directory '",
                        self.order.target.as_str(),
                        "'",
                    );
                    self.done(
                        Err(
                            user_with_internal(
                                message,
                                "Make sure that you have permission to create the directory.",
                                cause,
                            ),
                        ),
                    )
                },
                _ => self.surprised(),
            },
            GitPhase::Probing => match event {
                GitEvent::Exists(there) => {
                    let order = copy_order(&self.order);
                    if there {
                        self.phase = GitPhase::Fetching;
                        GitAction::Fetch(order)
                    } else {
                        self.phase = GitPhase::Cloning;
                        GitAction::Clone(order)
                    }
                },
                _ => self.surprised(),
            },
            GitPhase::Cloning => match event {
                GitEvent::Cloned(head) => {
                    let detail = join("at ", head.as_str());
                    self.done(Ok(BackupState::New(Some(detail))))
                },
                GitEvent::Broke { stage, cause } => {
                    let e = broken(&self.order, true, stage, cause);
                    self.done(Err(e))
                },
                _ => self.surprised(),
            },
            GitPhase::Fetching => match event {
                GitEvent::Fetched { before, head } => {
                    let same = match &before {
                        Some(b) => crate::text::same_str(b.as_str(), head.as_str()),
                        None => false,
                    };
                    if same {
                        let detail = join("at ", head.as_str());
                        self.done(Ok(BackupState::Unchanged(Some(detail))))
                    } else {
                        self.done(Ok(BackupState::Updated(Some(head))))
                    }
                },
                GitEvent::Broke { stage, cause } => {
                    let e = broken(&self.order, false, stage, cause);
                    self.done(Err(e))
                },
                _ => self.surprised(),
            },
            GitPhase::Finished => self.surprised(),
        }
    }
}

/// Against a remote that does not change, a first backup clones and ends
/// as new, and the next one fetches and ends as unchanged; both name the
/// same commit.
pub proof fn law_clone_then_fetch(first: Mirror, second: Mirror, head: Seq<char>)
    requires
        first.phase == GitPhase::Start,
        second.phase == GitPhase::Start,
    ensures
        ({
            let a1 = git_step_spec(first, GitEventView::Started);
            let a2 = git_step_spec(a1.next, GitEventView::Completed);
            let a3 = git_step_spec(a2.next, GitEventView::Exists(false));
            let a4 = git_step_spec(a3.next, GitEventView::Cloned(head));
            let b1 = git_step_spec(second, GitEventView::Started);
            let b2 = git_step_spec(b1.next, GitEventView::Completed);
            let b3 = git_step_spec(b2.next, GitEventView::Exists(true));
            let b4 = git_step_spec(
                b3.next,
                GitEventView::Fetched { before: Some(head), head: head },
            );
            &&& a3.action == GitActionView::Clone(first.order)
            &&& a4.action == GitActionView::Done(Ok(BackupStateView::New(Some("at "@ + head))))
            &&& b3.action == GitActionView::Fetch(second.order)
            &&& b4.action == GitActionView::Done(Ok(BackupStateView::Unchanged(Some("at "@ + head))))
        }),
{
}

} // verus!
