//! Candidate discovery: where each agent keeps its session logs, and which
//! of the files found there are close enough in time to a commit.

use vstd::prelude::*;
use crate::text::{from_chars, join_path, joined, replace_char, replaced, to_chars};

verus! {

/// Half the width of the time window around a commit, in seconds.
pub const DEFAULT_WINDOW_SECONDS: i64 = 600;

/// An agent integration: where one coding agent keeps its session logs.
#[derive(Debug, PartialEq, Eq)]
pub struct Integration {
    /// The name under which the agent appears in an annotation.
    pub name: String,
    /// The directory of its logs, relative to the home directory.
    pub root: String,
    /// Whether the logs of each repository stand in a directory of their
    /// own, named after the path of the repository.
    pub per_repository: bool,
}

pub struct IntegrationView {
    pub name: Seq<char>,
    pub root: Seq<char>,
    pub per_repository: bool,
}

impl DeepView for Integration {
    type V = IntegrationView;

    open spec fn deep_view(&self) -> IntegrationView {
        IntegrationView {
            name: self.name@,
            root: self.root@,
            per_repository: self.per_repository,
        }
    }
}

/// The integrations that are built in: the agent `codex`, which keeps the
/// logs of all repositories in `.codex/sessions` below the home directory.
pub open spec fn builtin() -> Seq<IntegrationView> {
    seq![IntegrationView { name: "codex"@, root: ".codex/sessions"@, per_repository: false }]
}

/// The integrations whose logs are searched where the caller names none.
pub fn builtin_integrations() -> (r: Vec<Integration>)
    ensures
        r.deep_view() == builtin(),
{
    let mut list: Vec<Integration> = Vec::new();
    list.push(
        Integration {
            name: "codex".to_owned(),
            root: ".codex/sessions".to_owned(),
            per_repository: false,
        },
    );
    proof {
        assert(list.deep_view() =~= builtin());
    }
    list
}

/// A session log considered for matching.
#[derive(Debug, PartialEq, Eq)]
pub struct CandidateFile {
    pub path: String,
    /// The name of the agent that wrote it.
    pub agent: String,
    /// Modification time, in seconds since the epoch.
    pub modified: i64,
}

pub struct CandidateFileView {
    pub path: Seq<char>,
    pub agent: Seq<char>,
    pub modified: i64,
}

impl DeepView for CandidateFile {
    type V = CandidateFileView;

    open spec fn deep_view(&self) -> CandidateFileView {
        CandidateFileView { path: self.path@, agent: self.agent@, modified: self.modified }
    }
}

impl CandidateFile {
    pub fn duplicate(&self) -> (r: CandidateFile)
        ensures
            r.deep_view() == self.deep_view(),
    {
        CandidateFile {
            path: self.path.clone(),
            agent: self.agent.clone(),
            modified: self.modified,
        }
    }
}

/// A directory in which one agent keeps session logs.
#[derive(Debug, PartialEq, Eq)]
pub struct LogDir {
    pub path: String,
    /// The name of the agent.
    pub agent: String,
}

pub struct LogDirView {
    pub path: Seq<char>,
    pub agent: Seq<char>,
}

impl DeepView for LogDir {
    type V = LogDirView;

    open spec fn deep_view(&self) -> LogDirView {
        LogDirView { path: self.path@, agent: self.agent@ }
    }
}

/// The name of the directory that stands for a repository: its path with
/// every `/` replaced by `-`.
pub open spec fn encoded_repo_path(repo_root: Seq<char>) -> Seq<char> {
    replaced(repo_root, '/', '-')
}

pub fn encode_repo_path(repo_root: &str) -> (r: String)
    ensures
        r@ == encoded_repo_path(repo_root@),
{
    let encoded = replace_char(&to_chars(repo_root), '/', '-');
    from_chars(&encoded)
}

/// Where an agent keeps the logs of sessions in `repo_root`.
pub open spec fn log_dir_of(
    integration: IntegrationView,
    home: Seq<char>,
    repo_root: Seq<char>,
) -> LogDirView {
    LogDirView {
        path: if integration.per_repository {
            joined(joined(home, integration.root), encoded_repo_path(repo_root))
        } else {
            joined(home, integration.root)
        },
        agent: integration.name,
    }
}

fn log_dir(integration: &Integration, home: &str, repo_root: &str) -> (r: LogDir)
    ensures
        r.deep_view() == log_dir_of(integration.deep_view(), home@, repo_root@),
{
    let base = join_path(home, integration.root.as_str());
    let path = if integration.per_repository {
        join_path(base.as_str(), encode_repo_path(repo_root).as_str())
    } else {
        base
    };
    LogDir { path, agent: integration.name.clone() }
}

/// The log directories of one agent for a repository.
pub fn log_dirs(integration: &Integration, home: &str, repo_root: &str) -> (r: Vec<LogDir>)
    ensures
        r.deep_view() == seq![log_dir_of(integration.deep_view(), home@, repo_root@)],
{
    let mut dirs: Vec<LogDir> = Vec::new();
    dirs.push(log_dir(integration, home, repo_root));
    proof {
        assert(dirs.deep_view() =~= seq![log_dir_of(integration.deep_view(), home@, repo_root@)]);
    }
    dirs
}

/// The log directories of every agent for a repository, one for each
/// integration and in their order.
pub open spec fn log_dirs_of(
    integrations: Seq<IntegrationView>,
    home: Seq<char>,
    repo_root: Seq<char>,
) -> Seq<LogDirView> {
    Seq::new(integrations.len(), |i: int| log_dir_of(integrations[i], home, repo_root))
}

pub fn all_log_dirs(integrations: &Vec<Integration>, home: &str, repo_root: &str) -> (r: Vec<
    LogDir,
>)
    ensures
        r.deep_view() == log_dirs_of(integrations.deep_view(), home@, repo_root@),
{
    let mut dirs: Vec<LogDir> = Vec::new();
    let mut i: usize = 0;
    let ghost all = integrations.deep_view();
    proof {
        assert(dirs.deep_view() =~= log_dirs_of(all.take(0), home@, repo_root@));
    }
    while i < integrations.len()
        invariant
            i <= integrations.len(),
            all == integrations.deep_view(),
            all.len() == integrations.len(),
            dirs.deep_view() == log_dirs_of(all.take(i as int), home@, repo_root@),
        decreases integrations.len() - i,
    {
        let ghost before = dirs.deep_view();
        let dir = log_dir(&integrations[i], home, repo_root);
        dirs.push(dir);
        proof {
            assert(all[i as int] == integrations[i as int].deep_view());
            assert(dirs.deep_view() =~= before.push(dir.deep_view()));
            assert(dirs.deep_view() =~= log_dirs_of(all.take(i + 1), home@, repo_root@));
        }
        i += 1;
    }
    proof {
        assert(all.take(i as int) =~= all);
    }
    dirs
}

/// A modification time within `window` seconds of `target`, both ends
/// included.
pub open spec fn in_window(modified: int, target: int, window: int) -> bool {
    target - window <= modified <= target + window
}

pub fn within_window(modified: i64, target: i64, window: i64) -> (r: bool)
    ensures
        r == in_window(modified as int, target as int, window as int),
{
    let m: i128 = modified as i128;
    let t: i128 = target as i128;
    let w: i128 = window as i128;
    t - w <= m && m <= t + w
}

/// The files of `files` whose modification time lies in the window, in
/// their order.
pub open spec fn windowed(files: Seq<CandidateFileView>, target: i64, window: i64) -> Seq<
    CandidateFileView,
>
    decreases files.len(),
{
    if files.len() == 0 {
        Seq::empty()
    } else {
        let rest = windowed(files.drop_last(), target, window);
        if in_window(files.last().modified as int, target as int, window as int) {
            rest.push(files.last())
        } else {
            rest
        }
    }
}

/// The candidates for a commit made at `target_time`: the files modified
/// within `window_seconds` of it.
pub fn candidate_files(files: &Vec<CandidateFile>, target_time: i64, window_seconds: i64) -> (r:
    Vec<CandidateFile>)
    ensures
        r.deep_view() == windowed(files.deep_view(), target_time, window_seconds),
{
    let mut kept: Vec<CandidateFile> = Vec::new();
    let mut i: usize = 0;
    let ghost all = files.deep_view();
    proof {
        assert(all.take(0) =~= Seq::<CandidateFileView>::empty());
        assert(kept.deep_view() =~= Seq::<CandidateFileView>::empty());
    }
    while i < files.len()
        invariant
            i <= files.len(),
            all == files.deep_view(),
            all.len() == files.len(),
            kept.deep_view() == windowed(all.take(i as int), target_time, window_seconds),
        decreases files.len() - i,
    {
        proof {
            assert(all.take(i + 1).drop_last() =~= all.take(i as int));
            assert(all.take(i + 1).last() == files[i as int].deep_view());
        }
        let ghost before = kept.deep_view();
        if within_window(files[i].modified, target_time, window_seconds) {
            let file = files[i].duplicate();
            kept.push(file);
            proof {
                assert(kept.deep_view() =~= before.push(file.deep_view()));
            }
        }
        i += 1;
    }
    proof {
        assert(all.take(i as int) =~= all);
    }
    kept
}

/// A file is a candidate exactly when it was found and lies in the window.
pub proof fn lemma_windowed_members(
    files: Seq<CandidateFileView>,
    target: i64,
    window: i64,
    file: CandidateFileView,
)
    ensures
        windowed(files, target, window).contains(file) <==> files.contains(file) && in_window(
            file.modified as int,
            target as int,
            window as int,
        ),
    decreases files.len(),
{
    if files.len() == 0 {
    } else {
        let rest = windowed(files.drop_last(), target, window);
        lemma_windowed_members(files.drop_last(), target, window, file);
        if files.contains(file) {
            let k = choose|k: int| 0 <= k < files.len() && files[k] == file;
            if k < files.len() - 1 {
                assert(files.drop_last()[k] == file);
            }
        }
        if files.drop_last().contains(file) {
            let k = choose|k: int| 0 <= k < files.drop_last().len() && files.drop_last()[k] == file;
            assert(files[k] == file);
        }
        if in_window(files.last().modified as int, target as int, window as int) {
            assert(rest.push(files.last()).last() == files.last());
            if rest.push(files.last()).contains(file) {
                let k = choose|k: int|
                    0 <= k < rest.push(files.last()).len() && rest.push(files.last())[k] == file;
                if k < rest.len() {
                    assert(rest[k] == file);
                }
            }
            if rest.contains(file) {
                let k = choose|k: int| 0 <= k < rest.len() && rest[k] == file;
                assert(rest.push(files.last())[k] == file);
            }
            if file == files.last() {
                assert(rest.push(files.last())[rest.len() as int] == file);
                assert(files[files.len() - 1] == file);
            }
        }
    }
}

/// Where no file lies in the window there is no candidate.
pub proof fn lemma_nothing_in_window(files: Seq<CandidateFileView>, target: i64, window: i64)
    requires
        forall|i: int|
            0 <= i < files.len() ==> !in_window(
                (#[trigger] files[i]).modified as int,
                target as int,
                window as int,
            ),
    ensures
        windowed(files, target, window).len() == 0,
    decreases files.len(),
{
    if files.len() > 0 {
        assert forall|i: int| 0 <= i < files.drop_last().len() implies !in_window(
            (#[trigger] files.drop_last()[i]).modified as int,
            target as int,
            window as int,
        ) by {
            assert(files.drop_last()[i] == files[i]);
        }
        lemma_nothing_in_window(files.drop_last(), target, window);
        assert(files.last() == files[files.len() - 1]);
    }
}

/// A file modified exactly `window` seconds before or after the commit is a
/// candidate; one second further away it is not.
pub proof fn lemma_window_boundary(target: int, window: int)
    requires
        window >= 0,
    ensures
        in_window(target + window, target, window),
        in_window(target - window, target, window),
        !in_window(target + window + 1, target, window),
        !in_window(target - window - 1, target, window),
{
}

} // verus!
