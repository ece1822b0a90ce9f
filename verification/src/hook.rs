//! The post-commit hook and the sweep over pending commits, as one state
//! machine.
//!
//! The machine decides; it does nothing itself. Each call of [`Hook::step`]
//! takes what the last action brought back and hands out the next action for
//! the caller to carry out, together with the lines to print on the error
//! stream. Whatever comes back, the machine ends in [`Action::Finish`]: the
//! hook never fails the commit it runs after.

use vstd::prelude::*;
use vstd::string::*;
use crate::config::{Config, ConfigEntryView, Settings};
use crate::discovery::{
    all_log_dirs,
    candidate_files,
    in_window,
    lemma_nothing_in_window,
    lemma_windowed_members,
    log_dirs_of,
    windowed,
    CandidateFile,
    CandidateFileView,
    Integration,
    IntegrationView,
    LogDir,
    LogDirView,
    DEFAULT_WINDOW_SECONDS,
};
use crate::json::pretty_text;
use crate::note::note_text;
use crate::pending::{
    after_write,
    lemma_removed_is_absent,
    lemma_write_then_remove,
    without_name,
    encode_record,
    file_name_of,
    list_for_repo,
    listed,
    new_record,
    pending_dir,
    pending_dir_of,
    pending_file_name,
    pending_record,
    record_members,
    PendingDir,
    PendingFile,
    PendingFileView,
    PendingRecord,
    PendingRecordView,
};
use crate::push::{
    check_enabled,
    decision_lines,
    enabled,
    decision_assignments,
    push_allowed,
    push_warning,
    settings_after_decision,
    should_push,
    Remotes,
    RemotesView,
};
use crate::scanner::{
    is_best,
    is_match,
    best_match,
    find_session_for_commit,
    metadata_of,
    parse_session_metadata,
    short_hash,
    short_hash_of,
    verified,
    verify_match,
    Session,
    SessionView,
};
use crate::text::concat;

verus! {

/// What the machine is waiting for.
#[derive(Debug, Clone, Copy, PartialEq, Eq, Structural)]
pub enum Phase {
    Start,
    AwaitHead,
    AwaitNoteCheck,
    AwaitListing,
    AwaitContents,
    AwaitCanonical,
    AwaitNoteAdded,
    AwaitPendingWritten,
    AwaitPendingList,
    AwaitRemoved,
    AwaitRemotes,
    AwaitPush,
    Done,
}

/// The commit at the head of a repository.
#[derive(Debug, PartialEq, Eq)]
pub struct Commit {
    pub hash: String,
    /// Commit time, in seconds since the epoch.
    pub timestamp: i64,
    pub repo_root: String,
}

pub struct CommitView {
    pub hash: Seq<char>,
    pub timestamp: i64,
    pub repo_root: Seq<char>,
}

impl DeepView for Commit {
    type V = CommitView;

    open spec fn deep_view(&self) -> CommitView {
        CommitView { hash: self.hash@, timestamp: self.timestamp, repo_root: self.repo_root@ }
    }
}

/// The session that mentions the commit in hand.
#[derive(Debug, PartialEq, Eq)]
pub struct Matched {
    pub agent: String,
    pub session_id: String,
    pub content: String,
    /// The working directory that the session recorded.
    pub cwd: String,
}

pub struct MatchedView {
    pub agent: Seq<char>,
    pub session_id: Seq<char>,
    pub content: Seq<char>,
    pub cwd: Seq<char>,
}

impl DeepView for Matched {
    type V = MatchedView;

    open spec fn deep_view(&self) -> MatchedView {
        MatchedView {
            agent: self.agent@,
            session_id: self.session_id@,
            content: self.content@,
            cwd: self.cwd@,
        }
    }
}

/// The state of one run of the hook.
#[derive(Debug, PartialEq, Eq)]
pub struct Hook {
    pub phase: Phase,
    /// The home directory of the user, where it is known.
    pub home: Option<String>,
    /// The time of the run, in seconds since the epoch.
    pub now: i64,
    pub integrations: Vec<Integration>,
    pub repo_root: String,
    /// Whether the commit in hand comes from a pending record.
    pub sweeping: bool,
    /// The commit in hand.
    pub target_hash: String,
    pub target_time: i64,
    /// The pending records not looked at yet.
    pub queue: Vec<PendingRecord>,
    pub candidates: Vec<CandidateFile>,
    pub matched: Option<Matched>,
    /// The settings; what the run adds to them is for the caller to carry
    /// out.
    pub config: Config,
    /// Whether an annotation was attached in this run.
    pub attached: bool,
}

pub struct HookView {
    pub phase: Phase,
    pub home: Option<Seq<char>>,
    pub now: i64,
    pub integrations: Seq<IntegrationView>,
    pub repo_root: Seq<char>,
    pub sweeping: bool,
    pub target_hash: Seq<char>,
    pub target_time: i64,
    pub queue: Seq<PendingRecordView>,
    pub candidates: Seq<CandidateFileView>,
    pub matched: Option<MatchedView>,
    /// The settings as they stand.
    pub settings: Settings,
    /// Every assignment to the settings, oldest first; what the run adds
    /// is what the caller carries out.
    pub assignments: Seq<ConfigEntryView>,
    pub attached: bool,
}

impl DeepView for Hook {
    type V = HookView;

    open spec fn deep_view(&self) -> HookView {
        HookView {
            phase: self.phase,
            home: self.home.deep_view(),
            now: self.now,
            integrations: self.integrations.deep_view(),
            repo_root: self.repo_root@,
            sweeping: self.sweeping,
            target_hash: self.target_hash@,
            target_time: self.target_time,
            queue: self.queue.deep_view(),
            candidates: self.candidates.deep_view(),
            matched: self.matched.deep_view(),
            settings: self.config@,
            assignments: self.config.entries.deep_view(),
            attached: self.attached,
        }
    }
}

/// What the caller reports back to the machine.
#[derive(Debug, PartialEq, Eq)]
pub enum Event {
    /// The hook was invoked.
    Begin,
    /// The pending commits of the repository at this root are to be
    /// tried again, without a look at the head commit.
    Retry(String),
    /// The head commit was resolved.
    Head(Commit),
    /// The repository or its head commit could not be resolved.
    HeadFailed(String),
    /// Whether the commit in hand has an annotation.
    NoteExists(bool),
    NoteCheckFailed(String),
    /// The files found in the log directories.
    Listing(Vec<CandidateFile>),
    /// The text of each file asked for, in order; `None` for a file that
    /// could not be read.
    Contents(Vec<Option<String>>),
    /// The canonical form of the two paths asked for; `None` for a path
    /// that could not be resolved.
    Canonical { cwd: Option<String>, repo_root: Option<String> },
    NoteAdded,
    NoteFailed(String),
    PendingWritten,
    PendingFailed(String),
    /// The files of the pending directory; none where it could not be read.
    PendingFiles(Vec<PendingFile>),
    Removed,
    /// What is known of the remotes of the repository.
    Remotes(Remotes),
    Pushed,
    PushFailed(String),
    /// Something went wrong that the caller cannot name.
    Fault,
}

pub enum EventView {
    Begin,
    Retry(Seq<char>),
    Head(CommitView),
    HeadFailed(Seq<char>),
    NoteExists(bool),
    NoteCheckFailed(Seq<char>),
    Listing(Seq<CandidateFileView>),
    Contents(Seq<Option<Seq<char>>>),
    Canonical { cwd: Option<Seq<char>>, repo_root: Option<Seq<char>> },
    NoteAdded,
    NoteFailed(Seq<char>),
    PendingWritten,
    PendingFailed(Seq<char>),
    PendingFiles(Seq<PendingFileView>),
    Removed,
    Remotes(RemotesView),
    Pushed,
    PushFailed(Seq<char>),
    Fault,
}

impl DeepView for Event {
    type V = EventView;

    open spec fn deep_view(&self) -> EventView {
        match self {
            Event::Begin => EventView::Begin,
            Event::Retry(root) => EventView::Retry(root@),
            Event::Head(commit) => EventView::Head(commit.deep_view()),
            Event::HeadFailed(m) => EventView::HeadFailed(m@),
            Event::NoteExists(b) => EventView::NoteExists(*b),
            Event::NoteCheckFailed(m) => EventView::NoteCheckFailed(m@),
            Event::Listing(files) => EventView::Listing(files.deep_view()),
            Event::Contents(texts) => EventView::Contents(texts.deep_view()),
            Event::Canonical { cwd, repo_root } => EventView::Canonical {
                cwd: cwd.deep_view(),
                repo_root: repo_root.deep_view(),
            },
            Event::NoteAdded => EventView::NoteAdded,
            Event::NoteFailed(m) => EventView::NoteFailed(m@),
            Event::PendingWritten => EventView::PendingWritten,
            Event::PendingFailed(m) => EventView::PendingFailed(m@),
            Event::PendingFiles(files) => EventView::PendingFiles(files.deep_view()),
            Event::Removed => EventView::Removed,
            Event::Remotes(remotes) => EventView::Remotes(remotes.deep_view()),
            Event::Pushed => EventView::Pushed,
            Event::PushFailed(m) => EventView::PushFailed(m@),
            Event::Fault => EventView::Fault,
        }
    }
}

/// What the machine asks the caller to do next.
#[derive(Debug, PartialEq, Eq)]
pub enum Action {
    /// Resolve the repository root and its head commit.
    ResolveHead,
    /// Find out whether `commit` has an annotation.
    CheckNote { commit: String },
    /// List the files of these directories, with their modification times.
    ListLogs { dirs: Vec<LogDir> },
    /// Read these files.
    ReadFiles { paths: Vec<String> },
    /// Bring both paths into canonical form.
    Canonicalize { cwd: String, repo_root: String },
    /// Attach `body` to `commit`.
    AddNote { commit: String, body: String },
    /// Write `content` to the file `file_name` of the directory `dir`.
    WritePending { dir: String, file_name: String, content: String },
    /// List the files of the directory `dir`, with their text.
    ListPending { dir: String },
    /// Remove the file `file_name` of the directory `dir`, if it is there.
    RemovePending { dir: String, file_name: String },
    /// Find out about the remotes of the repository.
    ReadRemotes,
    /// Push the annotations to the remote.
    PushNotes,
    /// Return to the caller of the hook, with success.
    Finish,
}

pub enum ActionView {
    ResolveHead,
    CheckNote { commit: Seq<char> },
    ListLogs { dirs: Seq<LogDirView> },
    ReadFiles { paths: Seq<Seq<char>> },
    Canonicalize { cwd: Seq<char>, repo_root: Seq<char> },
    AddNote { commit: Seq<char>, body: Seq<char> },
    WritePending { dir: Seq<char>, file_name: Seq<char>, content: Seq<char> },
    ListPending { dir: Seq<char> },
    RemovePending { dir: Seq<char>, file_name: Seq<char> },
    ReadRemotes,
    PushNotes,
    Finish,
}

impl DeepView for Action {
    type V = ActionView;

    open spec fn deep_view(&self) -> ActionView {
        match self {
            Action::ResolveHead => ActionView::ResolveHead,
            Action::CheckNote { commit } => ActionView::CheckNote { commit: commit@ },
            Action::ListLogs { dirs } => ActionView::ListLogs { dirs: dirs.deep_view() },
            Action::ReadFiles { paths } => ActionView::ReadFiles { paths: paths.deep_view() },
            Action::Canonicalize { cwd, repo_root } => ActionView::Canonicalize {
                cwd: cwd@,
                repo_root: repo_root@,
            },
            Action::AddNote { commit, body } => ActionView::AddNote {
                commit: commit@,
                body: body@,
            },
            Action::WritePending { dir, file_name, content } => ActionView::WritePending {
                dir: dir@,
                file_name: file_name@,
                content: content@,
            },
            Action::ListPending { dir } => ActionView::ListPending { dir: dir@ },
            Action::RemovePending { dir, file_name } => ActionView::RemovePending {
                dir: dir@,
                file_name: file_name@,
            },
            Action::ReadRemotes => ActionView::ReadRemotes,
            Action::PushNotes => ActionView::PushNotes,
            Action::Finish => ActionView::Finish,
        }
    }
}

/// One answer of the machine: the next action, and the lines to print on the
/// error stream before it.
#[derive(Debug, PartialEq, Eq)]
pub struct Step {
    pub action: Action,
    pub log: Vec<String>,
}

/// One transition: the state after it, the action, and the lines printed.
pub struct StepView {
    pub state: HookView,
    pub action: ActionView,
    pub log: Seq<Seq<char>>,
}

/// The status with which the hook returns to its caller, whatever happened.
pub const HOOK_EXIT_STATUS: i32 = 0;

pub open spec fn failure_warning(message: Seq<char>) -> Seq<char> {
    "[ai-barometer] warning: hook failed: "@ + message
}

pub open spec fn fault_warning() -> Seq<char> {
    "[ai-barometer] warning: hook panicked (this is a bug)"@
}

pub open spec fn pending_warning(message: Seq<char>) -> Seq<char> {
    "[ai-barometer] warning: failed to write pending record: "@ + message
}

pub open spec fn attached_line(session_id: Seq<char>, hash: Seq<char>) -> Seq<char> {
    "[ai-barometer] attached session "@ + session_id + " to commit "@ + short_hash(hash)
}

pub open spec fn retry_attached_line(session_id: Seq<char>, hash: Seq<char>) -> Seq<char> {
    "[ai-barometer] retry: attached session "@ + session_id + " to commit "@ + short_hash(hash)
}

/// The session id of the matched session, for a log line.
pub open spec fn matched_session_id(s: HookView) -> Seq<char> {
    match s.matched {
        Some(m) => m.session_id,
        None => "unknown"@,
    }
}

/// The run ends.
pub open spec fn done_step(s: HookView, log: Seq<Seq<char>>) -> StepView {
    StepView { state: HookView { phase: Phase::Done, ..s }, action: ActionView::Finish, log }
}

/// The run ends on a failure, which is logged once.
pub open spec fn failure_step(s: HookView, message: Seq<char>) -> StepView {
    done_step(s, seq![failure_warning(message)])
}

/// The work is done. Where an annotation was attached, the run turns to
/// the push; else it ends.
pub open spec fn closing_step(s: HookView, log: Seq<Seq<char>>) -> StepView {
    if s.attached {
        StepView {
            state: HookView { phase: Phase::AwaitRemotes, ..s },
            action: ActionView::ReadRemotes,
            log,
        }
    } else {
        done_step(s, log)
    }
}

/// The remotes are known: the push is decided on. The decision may print
/// the disclosure and put consent on record.
pub open spec fn push_step(s: HookView, remotes: RemotesView) -> StepView {
    let settings = settings_after_decision(s.settings, remotes);
    let assignments = s.assignments + decision_assignments(s.settings, remotes);
    if push_allowed(s.settings, remotes) {
        StepView {
            state: HookView { phase: Phase::AwaitPush, settings, assignments, ..s },
            action: ActionView::PushNotes,
            log: decision_lines(s.settings, remotes),
        }
    } else {
        done_step(HookView { settings, assignments, ..s }, decision_lines(s.settings, remotes))
    }
}

/// The sweep turns to the next pending record, or is over where none is
/// left.
pub open spec fn record_step(s: HookView, log: Seq<Seq<char>>) -> StepView {
    if s.queue.len() == 0 {
        closing_step(s, log)
    } else {
        StepView {
            state: HookView {
                phase: Phase::AwaitNoteCheck,
                sweeping: true,
                target_hash: s.queue[0].commit,
                target_time: s.queue[0].commit_time,
                queue: s.queue.drop_first(),
                ..s
            },
            action: ActionView::CheckNote { commit: s.queue[0].commit },
            log,
        }
    }
}

/// The work on the head commit is over: the sweep begins.
pub open spec fn sweep_step(s: HookView, log: Seq<Seq<char>>) -> StepView {
    match s.home {
        None => closing_step(s, log),
        Some(home) => StepView {
            state: HookView { phase: Phase::AwaitPendingList, ..s },
            action: ActionView::ListPending { dir: pending_dir_of(home) },
            log,
        },
    }
}

/// The record of the commit in hand is to be removed.
pub open spec fn removal_step(s: HookView, log: Seq<Seq<char>>) -> StepView {
    match s.home {
        None => record_step(s, log),
        Some(home) => StepView {
            state: HookView { phase: Phase::AwaitRemoved, ..s },
            action: ActionView::RemovePending {
                dir: pending_dir_of(home),
                file_name: file_name_of(s.target_hash),
            },
            log,
        },
    }
}

/// The order to write the pending record of the commit in hand: the file
/// `<hash>.json` of the pending directory, holding the commit, the
/// repository root, the commit time, one attempt, and the time of the run.
pub open spec fn pending_order(s: HookView, home: Seq<char>) -> ActionView {
    ActionView::WritePending {
        dir: pending_dir_of(home),
        file_name: file_name_of(s.target_hash),
        content: pretty_text(
            record_members(new_record(s.target_hash, s.repo_root, s.target_time, s.now)),
        ),
    }
}

/// No session could be tied to the commit in hand with confidence. For the
/// head commit a pending record is written; a pending record stays as it is.
pub open spec fn deferred_step(s: HookView, log: Seq<Seq<char>>) -> StepView {
    if s.sweeping {
        record_step(s, log)
    } else {
        match s.home {
            None => sweep_step(s, log.push(pending_warning("cannot determine home directory"@))),
            Some(home) => StepView {
                state: HookView { phase: Phase::AwaitPendingWritten, ..s },
                action: pending_order(s, home),
                log,
            },
        }
    }
}

/// The candidates with the text that was read for each; a candidate for
/// which no text came back counts as unreadable.
pub open spec fn sessions_of(
    candidates: Seq<CandidateFileView>,
    texts: Seq<Option<Seq<char>>>,
) -> Seq<SessionView> {
    Seq::new(
        candidates.len(),
        |i: int|
            SessionView {
                file: candidates[i],
                content: if i < texts.len() {
                    texts[i]
                } else {
                    None
                },
            },
    )
}

/// The candidates were read: the best match is looked for, and its recorded
/// working directory sent off to be resolved.
pub open spec fn examined_step(s: HookView, texts: Seq<Option<Seq<char>>>) -> StepView {
    let sessions = sessions_of(s.candidates, texts);
    match best_match(sessions, s.target_hash) {
        None => deferred_step(s, Seq::empty()),
        Some(i) => {
            let content = sessions[i].content.unwrap();
            let metadata = metadata_of(content);
            match metadata.cwd {
                None => deferred_step(s, Seq::empty()),
                Some(cwd) => StepView {
                    state: HookView {
                        phase: Phase::AwaitCanonical,
                        matched: Some(
                            MatchedView {
                                agent: sessions[i].file.agent,
                                session_id: match metadata.session_id {
                                    Some(id) => id,
                                    None => "unknown"@,
                                },
                                content,
                                cwd,
                            },
                        ),
                        ..s
                    },
                    action: ActionView::Canonicalize { cwd, repo_root: s.repo_root },
                    log: Seq::empty(),
                },
            }
        },
    }
}

/// The paths were resolved: the match is verified, and the annotation
/// ordered where it holds. A path that could not be resolved is taken as
/// it was recorded.
pub open spec fn decided_step(
    s: HookView,
    cwd: Option<Seq<char>>,
    repo_root: Option<Seq<char>>,
) -> StepView {
    match s.matched {
        None => deferred_step(s, Seq::empty()),
        Some(m) => {
            let c = match cwd {
                Some(c) => c,
                None => m.cwd,
            };
            let r = match repo_root {
                Some(r) => r,
                None => s.repo_root,
            };
            match verified(m.content, Some(c), r, s.target_hash) {
                None => deferred_step(s, Seq::empty()),
                Some(_) => StepView {
                    state: HookView { phase: Phase::AwaitNoteAdded, ..s },
                    action: ActionView::AddNote {
                        commit: s.target_hash,
                        body: note_text(
                            m.agent,
                            m.session_id,
                            s.repo_root,
                            s.target_hash,
                            m.content,
                        ),
                    },
                    log: Seq::empty(),
                },
            }
        },
    }
}

/// The paths of the candidates, in order.
pub open spec fn paths_of(candidates: Seq<CandidateFileView>) -> Seq<Seq<char>> {
    Seq::new(candidates.len(), |i: int| candidates[i].path)
}

/// The transition function of the hook.
pub open spec fn next(s: HookView, e: EventView) -> StepView {
    if e is Fault {
        done_step(s, seq![fault_warning()])
    } else {
        match s.phase {
            Phase::Done => done_step(s, Seq::empty()),
            Phase::Start => match e {
                EventView::Begin => if enabled(s.settings) {
                    StepView {
                        state: HookView { phase: Phase::AwaitHead, ..s },
                        action: ActionView::ResolveHead,
                        log: Seq::empty(),
                    }
                } else {
                    done_step(s, Seq::empty())
                },
                EventView::Retry(repo_root) => if enabled(s.settings) {
                    sweep_step(HookView { repo_root, ..s }, Seq::empty())
                } else {
                    done_step(s, Seq::empty())
                },
                _ => failure_step(s, "unexpected event"@),
            },
            Phase::AwaitHead => match e {
                EventView::Head(commit) => StepView {
                    state: HookView {
                        phase: Phase::AwaitNoteCheck,
                        repo_root: commit.repo_root,
                        sweeping: false,
                        target_hash: commit.hash,
                        target_time: commit.timestamp,
                        ..s
                    },
                    action: ActionView::CheckNote { commit: commit.hash },
                    log: Seq::empty(),
                },
                EventView::HeadFailed(m) => failure_step(s, m),
                _ => failure_step(s, "unexpected event"@),
            },
            Phase::AwaitNoteCheck => match e {
                EventView::NoteExists(exists) => if exists {
                    if s.sweeping {
                        removal_step(s, Seq::empty())
                    } else {
                        done_step(s, Seq::empty())
                    }
                } else {
                    match s.home {
                        None => deferred_step(s, Seq::empty()),
                        Some(home) => StepView {
                            state: HookView { phase: Phase::AwaitListing, ..s },
                            action: ActionView::ListLogs {
                                dirs: log_dirs_of(s.integrations, home, s.repo_root),
                            },
                            log: Seq::empty(),
                        },
                    }
                },
                EventView::NoteCheckFailed(m) => if s.sweeping {
                    record_step(s, Seq::empty())
                } else {
                    failure_step(s, m)
                },
                _ => failure_step(s, "unexpected event"@),
            },
            Phase::AwaitListing => match e {
                EventView::Listing(files) => {
                    let candidates = windowed(files, s.target_time, DEFAULT_WINDOW_SECONDS);
                    StepView {
                        state: HookView { phase: Phase::AwaitContents, candidates, ..s },
                        action: ActionView::ReadFiles { paths: paths_of(candidates) },
                        log: Seq::empty(),
                    }
                },
                _ => failure_step(s, "unexpected event"@),
            },
            Phase::AwaitContents => match e {
                EventView::Contents(texts) => examined_step(s, texts),
                _ => failure_step(s, "unexpected event"@),
            },
            Phase::AwaitCanonical => match e {
                EventView::Canonical { cwd, repo_root } => decided_step(s, cwd, repo_root),
                _ => failure_step(s, "unexpected event"@),
            },
            Phase::AwaitNoteAdded => match e {
                EventView::NoteAdded => if s.sweeping {
                    removal_step(
                        HookView { attached: true, ..s },
                        seq![retry_attached_line(matched_session_id(s), s.target_hash)],
                    )
                } else {
                    sweep_step(
                        HookView { attached: true, ..s },
                        seq![attached_line(matched_session_id(s), s.target_hash)],
                    )
                },
                EventView::NoteFailed(m) => if s.sweeping {
                    record_step(s, Seq::empty())
                } else {
                    failure_step(s, m)
                },
                _ => failure_step(s, "unexpected event"@),
            },
            Phase::AwaitPendingWritten => match e {
                EventView::PendingWritten => sweep_step(s, Seq::empty()),
                EventView::PendingFailed(m) => sweep_step(s, seq![pending_warning(m)]),
                _ => failure_step(s, "unexpected event"@),
            },
            Phase::AwaitPendingList => match e {
                EventView::PendingFiles(files) => record_step(
                    HookView { queue: listed(files, s.repo_root), ..s },
                    Seq::empty(),
                ),
                _ => failure_step(s, "unexpected event"@),
            },
            Phase::AwaitRemoved => match e {
                EventView::Removed => record_step(s, Seq::empty()),
                _ => failure_step(s, "unexpected event"@),
            },
            Phase::AwaitRemotes => match e {
                EventView::Remotes(remotes) => push_step(s, remotes),
                _ => failure_step(s, "unexpected event"@),
            },
            Phase::AwaitPush => match e {
                EventView::Pushed => done_step(s, Seq::empty()),
                EventView::PushFailed(m) => done_step(s, seq![push_warning(m)]),
                _ => failure_step(s, "unexpected event"@),
            },
        }
    }
}

/// The machine and its answer are what the transition says.
pub open spec fn step_is(state: Hook, step: Step, expected: StepView) -> bool {
    &&& state.deep_view() == expected.state
    &&& step.action.deep_view() == expected.action
    &&& step.log.deep_view() == expected.log
}

fn no_lines() -> (r: Vec<String>)
    ensures
        r.deep_view() == Seq::<Seq<char>>::empty(),
{
    let r: Vec<String> = Vec::new();
    proof {
        assert(r.deep_view() =~= Seq::<Seq<char>>::empty());
    }
    r
}

fn one_line(line: String) -> (r: Vec<String>)
    ensures
        r.deep_view() == seq![line@],
{
    let mut r: Vec<String> = Vec::new();
    r.push(line);
    proof {
        assert(r.deep_view() =~= seq![line@]);
    }
    r
}

fn add_line(log: Vec<String>, line: String) -> (r: Vec<String>)
    ensures
        r.deep_view() == log.deep_view().push(line@),
{
    let mut r = log;
    r.push(line);
    proof {
        assert(r.deep_view() =~= log.deep_view().push(line@));
    }
    r
}

fn copy_text(text: &Option<String>) -> (r: Option<String>)
    ensures
        r.deep_view() == text.deep_view(),
{
    match text {
        Some(t) => Some(t.clone()),
        None => None,
    }
}

fn candidate_paths(candidates: &Vec<CandidateFile>) -> (r: Vec<String>)
    ensures
        r.deep_view() == paths_of(candidates.deep_view()),
{
    let mut paths: Vec<String> = Vec::new();
    let mut i: usize = 0;
    let ghost all = candidates.deep_view();
    while i < candidates.len()
        invariant
            i <= candidates.len(),
            all == candidates.deep_view(),
            all.len() == candidates.len(),
            paths.deep_view() =~= Seq::new(i as nat, |k: int| all[k].path),
        decreases candidates.len() - i,
    {
        assert(all[i as int] == candidates[i as int].deep_view());
        let ghost before = paths.deep_view();
        let path = candidates[i].path.clone();
        paths.push(path);
        proof {
            assert(paths.deep_view() =~= before.push(path@));
        }
        i += 1;
    }
    paths
}

fn pair_sessions(candidates: &Vec<CandidateFile>, texts: &Vec<Option<String>>) -> (r: Vec<Session>)
    ensures
        r.deep_view() == sessions_of(candidates.deep_view(), texts.deep_view()),
{
    let mut sessions: Vec<Session> = Vec::new();
    let mut i: usize = 0;
    let ghost all = candidates.deep_view();
    let ghost read = texts.deep_view();
    while i < candidates.len()
        invariant
            i <= candidates.len(),
            all == candidates.deep_view(),
            all.len() == candidates.len(),
            read == texts.deep_view(),
            read.len() == texts.len(),
            sessions.deep_view() =~= sessions_of(all.take(i as int), read),
        decreases candidates.len() - i,
    {
        assert(all[i as int] == candidates[i as int].deep_view());
        let content = if i < texts.len() {
            assert(read[i as int] == texts[i as int].deep_view());
            copy_text(&texts[i])
        } else {
            None
        };
        let ghost before = sessions.deep_view();
        let session = Session { file: candidates[i].duplicate(), content };
        sessions.push(session);
        proof {
            assert(sessions.deep_view() =~= before.push(session.deep_view()));
            assert(all.take(i + 1)[i as int] == all[i as int]);
            assert(sessions.deep_view() =~= sessions_of(all.take(i + 1), read));
        }
        i += 1;
    }
    proof {
        assert(all.take(i as int) =~= all);
    }
    sessions
}

impl Hook {
    /// A run that has not begun.
    pub fn new(
        home: Option<String>,
        now: i64,
        integrations: Vec<Integration>,
        config: Config,
    ) -> (r: Hook)
        ensures
            r.phase == Phase::Start,
            r.home == home,
            r.now == now,
            r.integrations == integrations,
            r.config == config,
            !r.sweeping,
            !r.attached,
            r.queue@.len() == 0,
            r.matched is None,
    {
        Hook {
            phase: Phase::Start,
            home,
            now,
            integrations,
            repo_root: String::new(),
            sweeping: false,
            target_hash: String::new(),
            target_time: 0,
            queue: Vec::new(),
            candidates: Vec::new(),
            matched: None,
            config,
            attached: false,
        }
    }

    /// The status with which the hook returns: success, in every state.
    pub fn exit_status(&self) -> (r: i32)
        ensures
            r == HOOK_EXIT_STATUS,
            r == 0,
    {
        HOOK_EXIT_STATUS
    }

    /// Whether the run is over.
    pub fn is_done(&self) -> (r: bool)
        ensures
            r == (self.phase == Phase::Done),
    {
        match self.phase {
            Phase::Done => true,
            _ => false,
        }
    }

    fn finish(&mut self, log: Vec<String>) -> (r: Step)
        ensures
            step_is(*final(self), r, done_step(old(self).deep_view(), log.deep_view())),
    {
        self.phase = Phase::Done;
        Step { action: Action::Finish, log }
    }

    fn fail(&mut self, message: &str) -> (r: Step)
        ensures
            step_is(*final(self), r, failure_step(old(self).deep_view(), message@)),
    {
        let line = concat("[ai-barometer] warning: hook failed: ", message);
        self.finish(one_line(line))
    }

    fn pending_dir_path(&self) -> (r: Option<String>)
        ensures
            r.deep_view() == match self.home.deep_view() {
                Some(home) => Some(pending_dir_of(home)),
                None => None,
            },
    {
        match &self.home {
            Some(home) => match pending_dir(Some(home.as_str())) {
                Ok(dir) => Some(dir),
                Err(_) => None,
            },
            None => None,
        }
    }

    fn close(&mut self, log: Vec<String>) -> (r: Step)
        ensures
            step_is(*final(self), r, closing_step(old(self).deep_view(), log.deep_view())),
    {
        if self.attached {
            self.phase = Phase::AwaitRemotes;
            Step { action: Action::ReadRemotes, log }
        } else {
            self.finish(log)
        }
    }

    fn decide_push(&mut self, remotes: &Remotes) -> (r: Step)
        ensures
            step_is(*final(self), r, push_step(old(self).deep_view(), remotes.deep_view())),
    {
        let mut log = no_lines();
        let ghost before = log.deep_view();
        let allowed = should_push(&mut self.config, remotes, &mut log);
        proof {
            assert(before + decision_lines(old(self).config@, remotes.deep_view())
                =~= decision_lines(old(self).config@, remotes.deep_view()));
        }
        if allowed {
            self.phase = Phase::AwaitPush;
            Step { action: Action::PushNotes, log }
        } else {
            self.finish(log)
        }
    }

    fn next_record(&mut self, log: Vec<String>) -> (r: Step)
        ensures
            step_is(*final(self), r, record_step(old(self).deep_view(), log.deep_view())),
    {
        if self.queue.len() == 0 {
            proof {
                assert(self.queue.deep_view().len() == 0);
            }
            return self.close(log);
        }
        let ghost before = self.queue.deep_view();
        let record = self.queue.remove(0);
        proof {
            assert(before.len() > 0);
            assert(record.deep_view() == before[0]);
            assert(self.queue.deep_view() =~= before.drop_first());
        }
        self.phase = Phase::AwaitNoteCheck;
        self.sweeping = true;
        let commit = record.commit.clone();
        self.target_hash = record.commit;
        self.target_time = record.commit_time;
        Step { action: Action::CheckNote { commit }, log }
    }

    fn start_sweep(&mut self, log: Vec<String>) -> (r: Step)
        ensures
            step_is(*final(self), r, sweep_step(old(self).deep_view(), log.deep_view())),
    {
        match self.pending_dir_path() {
            None => self.close(log),
            Some(dir) => {
                self.phase = Phase::AwaitPendingList;
                Step { action: Action::ListPending { dir }, log }
            },
        }
    }

    fn remove_target(&mut self, log: Vec<String>) -> (r: Step)
        ensures
            step_is(*final(self), r, removal_step(old(self).deep_view(), log.deep_view())),
    {
        match self.pending_dir_path() {
            None => self.next_record(log),
            Some(dir) => {
                self.phase = Phase::AwaitRemoved;
                let file_name = pending_file_name(self.target_hash.as_str());
                Step { action: Action::RemovePending { dir, file_name }, log }
            },
        }
    }

    fn defer(&mut self, log: Vec<String>) -> (r: Step)
        ensures
            step_is(*final(self), r, deferred_step(old(self).deep_view(), log.deep_view())),
    {
        if self.sweeping {
            return self.next_record(log);
        }
        match self.pending_dir_path() {
            None => {
                let line = concat(
                    "[ai-barometer] warning: failed to write pending record: ",
                    "cannot determine home directory",
                );
                self.start_sweep(add_line(log, line))
            },
            Some(dir) => {
                let record = pending_record(
                    self.target_hash.as_str(),
                    self.repo_root.as_str(),
                    self.target_time,
                    self.now,
                );
                let content = encode_record(&record);
                self.phase = Phase::AwaitPendingWritten;
                let file_name = pending_file_name(self.target_hash.as_str());
                Step { action: Action::WritePending { dir, file_name, content }, log }
            },
        }
    }

    fn examine(&mut self, texts: &Vec<Option<String>>) -> (r: Step)
        ensures
            step_is(*final(self), r, examined_step(old(self).deep_view(), texts.deep_view())),
    {
        let sessions = pair_sessions(&self.candidates, texts);
        match find_session_for_commit(self.target_hash.as_str(), &sessions) {
            None => self.defer(no_lines()),
            Some(i) => {
                assert(sessions.deep_view()[i as int] == sessions[i as int].deep_view());
                let content = match &sessions[i].content {
                    Some(text) => text.clone(),
                    None => String::new(),
                };
                let metadata = parse_session_metadata(content.as_str());
                match metadata.cwd {
                    None => self.defer(no_lines()),
                    Some(cwd) => {
                        let session_id = match metadata.session_id {
                            Some(id) => id,
                            None => "unknown".to_owned(),
                        };
                        let action = Action::Canonicalize {
                            cwd: cwd.clone(),
                            repo_root: self.repo_root.clone(),
                        };
                        self.matched = Some(
                            Matched {
                                agent: sessions[i].file.agent.clone(),
                                session_id,
                                content,
                                cwd,
                            },
                        );
                        self.phase = Phase::AwaitCanonical;
                        Step { action, log: no_lines() }
                    },
                }
            },
        }
    }

    fn note_body(&self, cwd: &Option<String>, repo_root: &Option<String>) -> (r: Option<String>)
        ensures
            r.deep_view() == match decided_step(
                self.deep_view(),
                cwd.deep_view(),
                repo_root.deep_view(),
            ).action {
                ActionView::AddNote { body, .. } => Some(body),
                _ => None,
            },
    {
        match &self.matched {
            None => None,
            Some(m) => {
                let c = match cwd {
                    Some(c) => c.as_str(),
                    None => m.cwd.as_str(),
                };
                let r = match repo_root {
                    Some(r) => r.as_str(),
                    None => self.repo_root.as_str(),
                };
                match verify_match(m.content.as_str(), Some(c), r, self.target_hash.as_str()) {
                    None => None,
                    Some(_) => Some(
                        crate::note::format(
                            m.agent.as_str(),
                            m.session_id.as_str(),
                            self.repo_root.as_str(),
                            self.target_hash.as_str(),
                            m.content.as_str(),
                        ),
                    ),
                }
            },
        }
    }

    fn decide(&mut self, cwd: &Option<String>, repo_root: &Option<String>) -> (r: Step)
        ensures
            step_is(
                *final(self),
                r,
                decided_step(old(self).deep_view(), cwd.deep_view(), repo_root.deep_view()),
            ),
    {
        match self.note_body(cwd, repo_root) {
            None => self.defer(no_lines()),
            Some(body) => {
                self.phase = Phase::AwaitNoteAdded;
                Step {
                    action: Action::AddNote { commit: self.target_hash.clone(), body },
                    log: no_lines(),
                }
            },
        }
    }

    fn session_id_for_log(&self) -> (r: String)
        ensures
            r@ == matched_session_id(self.deep_view()),
    {
        match &self.matched {
            Some(m) => m.session_id.clone(),
            None => "unknown".to_owned(),
        }
    }

    fn attached_line(&self, retry: bool) -> (r: String)
        ensures
            r@ == if retry {
                retry_attached_line(matched_session_id(self.deep_view()), self.target_hash@)
            } else {
                attached_line(matched_session_id(self.deep_view()), self.target_hash@)
            },
    {
        let mut line = if retry {
            "[ai-barometer] retry: attached session ".to_owned()
        } else {
            "[ai-barometer] attached session ".to_owned()
        };
        line.append(self.session_id_for_log().as_str());
        line.append(" to commit ");
        line.append(short_hash_of(self.target_hash.as_str()).as_str());
        line
    }

    /// Takes what the last action brought back and says what to do next.
    pub fn step(&mut self, event: Event) -> (r: Step)
        ensures
            step_is(*final(self), r, next(old(self).deep_view(), event.deep_view())),
    {
        if let Event::Fault = event {
            return self.finish(
                one_line("[ai-barometer] warning: hook panicked (this is a bug)".to_owned()),
            );
        }
        match self.phase {
            Phase::Done => self.finish(no_lines()),
            Phase::Start => match event {
                Event::Begin => {
                    if check_enabled(&self.config) {
                        self.phase = Phase::AwaitHead;
                        Step { action: Action::ResolveHead, log: no_lines() }
                    } else {
                        self.finish(no_lines())
                    }
                },
                Event::Retry(repo_root) => {
                    if check_enabled(&self.config) {
                        self.repo_root = repo_root;
                        self.start_sweep(no_lines())
                    } else {
                        self.finish(no_lines())
                    }
                },
                _ => self.fail("unexpected event"),
            },
            Phase::AwaitHead => match event {
                Event::Head(commit) => {
                    self.phase = Phase::AwaitNoteCheck;
                    self.repo_root = commit.repo_root;
                    self.sweeping = false;
                    let hash = commit.hash.clone();
                    self.target_hash = commit.hash;
                    self.target_time = commit.timestamp;
                    Step { action: Action::CheckNote { commit: hash }, log: no_lines() }
                },
                Event::HeadFailed(m) => self.fail(m.as_str()),
                _ => self.fail("unexpected event"),
            },
            Phase::AwaitNoteCheck => match event {
                Event::NoteExists(exists) => {
                    if exists {
                        if self.sweeping {
                            self.remove_target(no_lines())
                        } else {
                            self.finish(no_lines())
                        }
                    } else {
                        let dirs = match &self.home {
                            None => None,
                            Some(home) => Some(
                                all_log_dirs(
                                    &self.integrations,
                                    home.as_str(),
                                    self.repo_root.as_str(),
                                ),
                            ),
                        };
                        match dirs {
                            None => self.defer(no_lines()),
                            Some(dirs) => {
                                self.phase = Phase::AwaitListing;
                                Step { action: Action::ListLogs { dirs }, log: no_lines() }
                            },
                        }
                    }
                },
                Event::NoteCheckFailed(m) => {
                    if self.sweeping {
                        self.next_record(no_lines())
                    } else {
                        self.fail(m.as_str())
                    }
                },
                _ => self.fail("unexpected event"),
            },
            Phase::AwaitListing => match event {
                Event::Listing(files) => {
                    let candidates = candidate_files(
                        &files,
                        self.target_time,
                        DEFAULT_WINDOW_SECONDS,
                    );
                    let paths = candidate_paths(&candidates);
                    self.candidates = candidates;
                    self.phase = Phase::AwaitContents;
                    Step { action: Action::ReadFiles { paths }, log: no_lines() }
                },
                _ => self.fail("unexpected event"),
            },
            Phase::AwaitContents => match event {
                Event::Contents(texts) => self.examine(&texts),
                _ => self.fail("unexpected event"),
            },
            Phase::AwaitCanonical => match event {
                Event::Canonical { cwd, repo_root } => self.decide(&cwd, &repo_root),
                _ => self.fail("unexpected event"),
            },
            Phase::AwaitNoteAdded => match event {
                Event::NoteAdded => {
                    if self.sweeping {
                        let line = self.attached_line(true);
                        self.attached = true;
                        self.remove_target(one_line(line))
                    } else {
                        let line = self.attached_line(false);
                        self.attached = true;
                        self.start_sweep(one_line(line))
                    }
                },
                Event::NoteFailed(m) => {
                    if self.sweeping {
                        self.next_record(no_lines())
                    } else {
                        self.fail(m.as_str())
                    }
                },
                _ => self.fail("unexpected event"),
            },
            Phase::AwaitPendingWritten => match event {
                Event::PendingWritten => self.start_sweep(no_lines()),
                Event::PendingFailed(m) => {
                    let line = concat(
                        "[ai-barometer] warning: failed to write pending record: ",
                        m.as_str(),
                    );
                    self.start_sweep(one_line(line))
                },
                _ => self.fail("unexpected event"),
            },
            Phase::AwaitPendingList => match event {
                Event::PendingFiles(files) => {
                    let dir = PendingDir { files };
                    self.queue = list_for_repo(&dir, self.repo_root.as_str());
                    self.next_record(no_lines())
                },
                _ => self.fail("unexpected event"),
            },
            Phase::AwaitRemoved => match event {
                Event::Removed => self.next_record(no_lines()),
                _ => self.fail("unexpected event"),
            },
            Phase::AwaitRemotes => match event {
                Event::Remotes(remotes) => self.decide_push(&remotes),
                _ => self.fail("unexpected event"),
            },
            Phase::AwaitPush => match event {
                Event::Pushed => self.finish(no_lines()),
                Event::PushFailed(m) => {
                    let line = concat(
                        "[ai-barometer] warning: failed to push notes: ",
                        m.as_str(),
                    );
                    self.finish(one_line(line))
                },
                _ => self.fail("unexpected event"),
            },
        }
    }
}

/// The actions that a run hands out, from state `s` on, for the events
/// that come in.
pub open spec fn actions_of(s: HookView, events: Seq<EventView>) -> Seq<ActionView>
    decreases events.len(),
{
    if events.len() == 0 {
        Seq::empty()
    } else {
        let step = next(s, events[0]);
        seq![step.action] + actions_of(step.state, events.drop_first())
    }
}

/// A run that is over stays over: whatever comes in, it asks for nothing
/// but to return.
pub proof fn lemma_done_is_final(s: HookView, events: Seq<EventView>)
    requires
        s.phase == Phase::Done,
    ensures
        actions_of(s, events).len() == events.len(),
        forall|k: int| 0 <= k < events.len() ==> #[trigger] actions_of(s, events)[k] is Finish,
    decreases events.len(),
{
    if events.len() > 0 {
        let step = next(s, events[0]);
        assert(step.state.phase == Phase::Done);
        lemma_done_is_final(step.state, events.drop_first());
    }
}

/// A head commit that has its annotation is left alone: the run ends at
/// once and without a word, and nothing that comes in later makes it
/// attach an annotation or write a pending record.
pub proof fn lemma_annotated_head_is_left_alone(s: HookView, later: Seq<EventView>)
    requires
        s.phase == Phase::AwaitNoteCheck,
        !s.sweeping,
    ensures
        next(s, EventView::NoteExists(true)) == done_step(s, Seq::empty()),
        forall|k: int|
            0 <= k < 1 + later.len() ==> #[trigger] actions_of(
                s,
                seq![EventView::NoteExists(true)] + later,
            )[k] is Finish,
{
    let events = seq![EventView::NoteExists(true)] + later;
    let step = next(s, events[0]);
    assert(events.drop_first() =~= later);
    lemma_done_is_final(step.state, later);
}

/// A session that mentions the commit but ran in another directory gives
/// no annotation. For the head commit a pending record is written
/// instead.
pub proof fn lemma_wrong_directory_is_deferred(
    s: HookView,
    cwd: Option<Seq<char>>,
    repo_root: Option<Seq<char>>,
)
    requires
        s.phase == Phase::AwaitCanonical,
        s.matched matches Some(m) && (match cwd {
            Some(c) => c,
            None => m.cwd,
        }) != (match repo_root {
            Some(r) => r,
            None => s.repo_root,
        }),
    ensures
        next(s, EventView::Canonical { cwd, repo_root }) == deferred_step(s, Seq::empty()),
        !(next(s, EventView::Canonical { cwd, repo_root }).action is AddNote),
        !s.sweeping && s.home is Some ==> next(s, EventView::Canonical { cwd, repo_root }).action
            == pending_order(s, s.home.unwrap()),
{
}

/// A session that mentions the commit but records no working directory
/// gives no annotation either; for the head commit a pending record is
/// written.
pub proof fn lemma_missing_directory_is_deferred(s: HookView, texts: Seq<Option<Seq<char>>>)
    requires
        s.phase == Phase::AwaitContents,
        best_match(sessions_of(s.candidates, texts), s.target_hash) matches Some(i) && metadata_of(
            sessions_of(s.candidates, texts)[i].content.unwrap(),
        ).cwd is None,
    ensures
        next(s, EventView::Contents(texts)) == deferred_step(s, Seq::empty()),
        !s.sweeping && s.home is Some ==> next(s, EventView::Contents(texts)).action
            == pending_order(s, s.home.unwrap()),
{
}

/// A file modified outside the window around the commit in hand is no
/// candidate: it is not among the files to read, whatever it holds.
pub proof fn lemma_file_outside_window_is_no_candidate(
    s: HookView,
    files: Seq<CandidateFileView>,
    file: CandidateFileView,
)
    requires
        s.phase == Phase::AwaitListing,
        !in_window(file.modified as int, s.target_time as int, DEFAULT_WINDOW_SECONDS as int),
    ensures
        !next(s, EventView::Listing(files)).state.candidates.contains(file),
        next(s, EventView::Listing(files)).action == (ActionView::ReadFiles {
            paths: paths_of(next(s, EventView::Listing(files)).state.candidates),
        }),
{
    lemma_windowed_members(files, s.target_time, DEFAULT_WINDOW_SECONDS, file);
}

/// Where no candidate mentions the head commit, no annotation is attached
/// and the pending record of the commit is written.
pub proof fn lemma_unmatched_head_is_deferred(s: HookView, texts: Seq<Option<Seq<char>>>)
    requires
        s.phase == Phase::AwaitContents,
        !s.sweeping,
        s.home is Some,
        forall|i: int|
            0 <= i < s.candidates.len() ==> !is_match(
                #[trigger] sessions_of(s.candidates, texts)[i],
                s.target_hash,
            ),
    ensures
        next(s, EventView::Contents(texts)).action == pending_order(s, s.home.unwrap()),
        next(s, EventView::Contents(texts)).state.phase == Phase::AwaitPendingWritten,
{
    let sessions = sessions_of(s.candidates, texts);
    assert forall|i: int| !is_best(sessions, s.target_hash, i) by {
        if 0 <= i < sessions.len() {
            assert(!is_match(sessions[i], s.target_hash));
        }
    }
}

/// Where the only files that mention the head commit lie outside the
/// window, nothing is attached and the pending record is written: such
/// files are never read.
pub proof fn lemma_late_session_is_deferred(
    s: HookView,
    files: Seq<CandidateFileView>,
    texts: Seq<Option<Seq<char>>>,
)
    requires
        s.phase == Phase::AwaitListing,
        !s.sweeping,
        s.home is Some,
        forall|i: int|
            0 <= i < files.len() ==> !in_window(
                (#[trigger] files[i]).modified as int,
                s.target_time as int,
                DEFAULT_WINDOW_SECONDS as int,
            ),
    ensures
        next(s, EventView::Listing(files)).action == (ActionView::ReadFiles {
            paths: Seq::<Seq<char>>::empty(),
        }),
        next(next(s, EventView::Listing(files)).state, EventView::Contents(texts)).action
            == pending_order(s, s.home.unwrap()),
{
    let listed = next(s, EventView::Listing(files));
    lemma_nothing_in_window(files, s.target_time, DEFAULT_WINDOW_SECONDS);
    assert(listed.state.candidates.len() == 0);
    assert(paths_of(listed.state.candidates) =~= Seq::<Seq<char>>::empty());
    lemma_unmatched_head_is_deferred(listed.state, texts);
}

/// A pending commit that got its annotation by another way is taken off
/// the queue: the sweep asks for its record to be removed, and for no
/// annotation.
pub proof fn lemma_annotated_pending_is_removed(s: HookView)
    requires
        s.phase == Phase::AwaitNoteCheck,
        s.sweeping,
        s.home is Some,
    ensures
        next(s, EventView::NoteExists(true)).action == (ActionView::RemovePending {
            dir: pending_dir_of(s.home.unwrap()),
            file_name: file_name_of(s.target_hash),
        }),
        next(s, EventView::NoteExists(true)).log == Seq::<Seq<char>>::empty(),
{
}

/// A pending commit for which no session can be verified keeps its
/// record: the sweep goes on to the next one.
pub proof fn lemma_unresolved_pending_is_kept(s: HookView, log: Seq<Seq<char>>)
    requires
        s.sweeping,
    ensures
        deferred_step(s, log) == record_step(s, log),
        !(deferred_step(s, log).action is RemovePending),
        !(deferred_step(s, log).action is WritePending),
        !(deferred_step(s, log).action is AddNote),
{
}

/// A hook that cannot find out where it is ends at once, with one
/// warning, and still returns success.
pub proof fn lemma_no_commit_context_ends_quietly(s: HookView, message: Seq<char>)
    requires
        s.phase == Phase::AwaitHead,
    ensures
        next(s, EventView::HeadFailed(message)) == done_step(s, seq![failure_warning(message)]),
        next(s, EventView::HeadFailed(message)).action is Finish,
{
}

/// A fault ends the run in every state, with one warning.
pub proof fn lemma_fault_ends_run(s: HookView)
    ensures
        next(s, EventView::Fault) == done_step(s, seq![fault_warning()]),
{
}

/// A run is over exactly when its last answer was `Finish`.
pub proof fn lemma_ended_run_returns(s: HookView, e: EventView)
    ensures
        next(s, e).state.phase == Phase::Done ==> next(s, e).action is Finish,
        next(s, e).action is Finish ==> next(s, e).state.phase == Phase::Done,
{
}

/// In a repository in which the tool is switched off the hook does
/// nothing at all.
pub proof fn lemma_disabled_does_nothing(s: HookView)
    requires
        s.phase == Phase::Start,
        !enabled(s.settings),
    ensures
        next(s, EventView::Begin) == done_step(s, Seq::empty()),
{
}

/// A run in which no annotation was attached pushes nothing.
pub proof fn lemma_nothing_attached_nothing_pushed(s: HookView, log: Seq<Seq<char>>)
    requires
        !s.attached,
    ensures
        closing_step(s, log) == done_step(s, log),
{
}

/// The push is ordered exactly where the push policy allows it.
pub proof fn lemma_push_follows_policy(s: HookView, remotes: RemotesView)
    requires
        s.phase == Phase::AwaitRemotes,
    ensures
        next(s, EventView::Remotes(remotes)).action is PushNotes <==> push_allowed(
            s.settings,
            remotes,
        ),
        !push_allowed(s.settings, remotes) ==> next(s, EventView::Remotes(remotes)).action
            is Finish,
{
}

/// The life of a pending record: once it was written, and its commit got
/// an annotation by another way, the sweep asks for the record to be
/// removed and for no annotation. Removing it leaves no file of that name,
/// and leaves the directory as if the record had never been written.
pub proof fn lemma_pending_lifecycle(s: HookView, files: Seq<PendingFileView>, text: Seq<char>)
    requires
        s.phase == Phase::AwaitNoteCheck,
        s.sweeping,
        s.home is Some,
    ensures
        ({
            let name = file_name_of(s.target_hash);
            let written = after_write(files, s.target_hash, text);
            let swept = without_name(written, name);
            &&& next(s, EventView::NoteExists(true)).action == (ActionView::RemovePending {
                dir: pending_dir_of(s.home.unwrap()),
                file_name: name,
            })
            &&& swept == without_name(files, name)
            &&& forall|i: int| 0 <= i < swept.len() ==> (#[trigger] swept[i]).name != name
        }),
{
    lemma_write_then_remove(files, s.target_hash, text);
    lemma_removed_is_absent(after_write(files, s.target_hash, text), file_name_of(s.target_hash));
}

} // verus!
