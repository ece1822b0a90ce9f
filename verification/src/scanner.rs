//! Session matching and verification: which candidate mentions a commit,
//! what a session log says of itself, and whether the two belong together.

use vstd::prelude::*;
use crate::discovery::{CandidateFile, CandidateFileView};
use crate::json::{get_text, lookup, parse_members, parsed_members, text_of};
use crate::text::{
    contains_chars,
    contains_seq,
    from_chars,
    lines_of,
    slice_chars,
    split_lines,
    str_eq,
    to_chars,
};

verus! {

/// What a session log records about itself.
#[derive(Debug, PartialEq, Eq)]
pub struct SessionMetadata {
    pub session_id: Option<String>,
    /// The working directory the session ran in.
    pub cwd: Option<String>,
}

pub struct SessionMetadataView {
    pub session_id: Option<Seq<char>>,
    pub cwd: Option<Seq<char>>,
}

impl DeepView for SessionMetadata {
    type V = SessionMetadataView;

    open spec fn deep_view(&self) -> SessionMetadataView {
        SessionMetadataView {
            session_id: self.session_id.deep_view(),
            cwd: self.cwd.deep_view(),
        }
    }
}

/// The text of the member `key` of the JSON object on one line; none where
/// the line holds no JSON or no such text.
pub open spec fn line_text(line: Seq<char>, key: Seq<char>) -> Option<Seq<char>> {
    match parsed_members(line) {
        Some(members) => text_of(lookup(members, key)),
        None => None,
    }
}

/// The text of `key` on the first line that has one.
pub open spec fn first_text(lines: Seq<Seq<char>>, key: Seq<char>) -> Option<Seq<char>>
    decreases lines.len(),
{
    if lines.len() == 0 {
        None
    } else {
        match line_text(lines[0], key) {
            Some(text) => Some(text),
            None => first_text(lines.drop_first(), key),
        }
    }
}

/// The metadata of a session log: the first `session_id` and the first
/// `cwd` among its records, one JSON object per line.
pub open spec fn metadata_of(content: Seq<char>) -> SessionMetadataView {
    SessionMetadataView {
        session_id: first_text(lines_of(content), "session_id"@),
        cwd: first_text(lines_of(content), "cwd"@),
    }
}

/// What `found` holds once the lines before `rest` were read.
spec fn pending_text(found: Option<Seq<char>>, rest: Seq<Seq<char>>, key: Seq<char>) -> Option<
    Seq<char>,
> {
    match found {
        Some(text) => Some(text),
        None => first_text(rest, key),
    }
}

/// Reads the metadata of a session log. Lines that are not JSON are passed
/// over; a log without usable records gives empty metadata.
pub fn parse_session_metadata(content: &str) -> (r: SessionMetadata)
    ensures
        r.deep_view() == metadata_of(content@),
{
    let lines = split_lines(&to_chars(content));
    let n: usize = lines.len();
    let ghost all = lines.deep_view();
    let mut session_id: Option<String> = None;
    let mut cwd: Option<String> = None;
    let mut i: usize = 0;
    proof {
        assert(all.subrange(0, n as int) =~= all);
    }
    while i < n && (session_id.is_none() || cwd.is_none())
        invariant
            i <= n,
            n == lines.len(),
            all == lines.deep_view(),
            all.len() == n,
            pending_text(session_id.deep_view(), all.subrange(i as int, n as int), "session_id"@)
                == first_text(all, "session_id"@),
            pending_text(cwd.deep_view(), all.subrange(i as int, n as int), "cwd"@) == first_text(
                all,
                "cwd"@,
            ),
        decreases n - i,
    {
        let ghost rest = all.subrange(i as int, n as int);
        let line = from_chars(&lines[i]);
        proof {
            assert(lines[i as int].deep_view() =~= lines[i as int]@);
            assert(rest[0] == line@);
            assert(rest.drop_first() =~= all.subrange(i + 1, n as int));
        }
        match parse_members(line.as_str()) {
            Some(members) => {
                if session_id.is_none() {
                    session_id = get_text(&members, "session_id");
                }
                if cwd.is_none() {
                    cwd = get_text(&members, "cwd");
                }
            },
            None => {},
        }
        i += 1;
    }
    proof {
        if i == n {
            assert(all.subrange(n as int, n as int) =~= Seq::<Seq<char>>::empty());
        }
    }
    SessionMetadata { session_id, cwd }
}

/// A candidate together with its text, where it could be read.
#[derive(Debug, PartialEq, Eq)]
pub struct Session {
    pub file: CandidateFile,
    pub content: Option<String>,
}

pub struct SessionView {
    pub file: CandidateFileView,
    pub content: Option<Seq<char>>,
}

impl DeepView for Session {
    type V = SessionView;

    open spec fn deep_view(&self) -> SessionView {
        SessionView { file: self.file.deep_view(), content: self.content.deep_view() }
    }
}

/// The form of a hash in which a version-control tool reports a new commit:
/// its first seven characters.
pub open spec fn short_hash(hash: Seq<char>) -> Seq<char> {
    if hash.len() >= 7 {
        hash.take(7)
    } else {
        hash
    }
}

/// A text that holds the hash of a commit, in full or in its short form.
/// An empty hash is held by no text.
pub open spec fn mentions_commit(content: Seq<char>, hash: Seq<char>) -> bool {
    hash.len() > 0 && contains_seq(content, short_hash(hash))
}

pub fn short_hash_of(commit_hash: &str) -> (r: String)
    ensures
        r@ == short_hash(commit_hash@),
{
    let hash = to_chars(commit_hash);
    if hash.len() >= 7 {
        from_chars(&slice_chars(&hash, 0, 7))
    } else {
        commit_hash.to_owned()
    }
}

pub fn content_mentions_commit(content: &str, commit_hash: &str) -> (r: bool)
    ensures
        r == mentions_commit(content@, commit_hash@),
{
    let hash = to_chars(commit_hash);
    if hash.len() == 0 {
        return false;
    }
    let short = if hash.len() >= 7 {
        slice_chars(&hash, 0, 7)
    } else {
        hash
    };
    contains_chars(&to_chars(content), &short)
}

/// A session whose text could be read and mentions the commit.
pub open spec fn is_match(session: SessionView, hash: Seq<char>) -> bool {
    session.content matches Some(text) && mentions_commit(text, hash)
}

/// Session `i` is to be preferred to session `j`: it was modified later, or
/// at the same time and stands no later in the list.
pub open spec fn preferred(sessions: Seq<SessionView>, i: int, j: int) -> bool {
    sessions[j].file.modified < sessions[i].file.modified || (sessions[j].file.modified
        == sessions[i].file.modified && i <= j)
}

/// Session `i` mentions the commit and is preferred to every other session
/// that does.
pub open spec fn is_best(sessions: Seq<SessionView>, hash: Seq<char>, i: int) -> bool {
    &&& 0 <= i < sessions.len()
    &&& is_match(sessions[i], hash)
    &&& forall|j: int|
        0 <= j < sessions.len() && is_match(#[trigger] sessions[j], hash) ==> preferred(
            sessions,
            i,
            j,
        )
}

/// The session that belongs to a commit: among those that mention it, the
/// one modified last; among several modified last, the first in the list.
pub open spec fn best_match(sessions: Seq<SessionView>, hash: Seq<char>) -> Option<int> {
    if exists|i: int| is_best(sessions, hash, i) {
        Some(choose|i: int| is_best(sessions, hash, i))
    } else {
        None
    }
}

/// No two sessions are both the best.
pub proof fn lemma_best_is_unique(sessions: Seq<SessionView>, hash: Seq<char>, i: int, j: int)
    requires
        is_best(sessions, hash, i),
        is_best(sessions, hash, j),
    ensures
        i == j,
{
    assert(preferred(sessions, i, j));
    assert(preferred(sessions, j, i));
}

/// Finds the session that belongs to a commit.
pub fn find_session_for_commit(commit_hash: &str, sessions: &Vec<Session>) -> (r: Option<usize>)
    ensures
        match r {
            Some(i) => best_match(sessions.deep_view(), commit_hash@) == Some(i as int) && is_best(
                sessions.deep_view(),
                commit_hash@,
                i as int,
            ),
            None => best_match(sessions.deep_view(), commit_hash@) is None && forall|j: int|
                0 <= j < sessions.len() ==> !is_match(
                    #[trigger] sessions.deep_view()[j],
                    commit_hash@,
                ),
        },
{
    let ghost all = sessions.deep_view();
    let mut best: Option<usize> = None;
    let mut k: usize = 0;
    while k < sessions.len()
        invariant
            k <= sessions.len(),
            all == sessions.deep_view(),
            all.len() == sessions.len(),
            match best {
                Some(i) => i < k && is_match(all[i as int], commit_hash@) && forall|j: int|
                    0 <= j < k && is_match(#[trigger] all[j], commit_hash@) ==> preferred(
                        all,
                        i as int,
                        j,
                    ),
                None => forall|j: int| 0 <= j < k ==> !is_match(#[trigger] all[j], commit_hash@),
            },
        decreases sessions.len() - k,
    {
        assert(all[k as int] == sessions[k as int].deep_view());
        let matched = match &sessions[k].content {
            Some(text) => content_mentions_commit(text.as_str(), commit_hash),
            None => false,
        };
        if matched {
            match best {
                Some(i) => {
                    assert(all[i as int] == sessions[i as int].deep_view());
                    if sessions[k].file.modified > sessions[i].file.modified {
                        best = Some(k);
                    }
                },
                None => {
                    best = Some(k);
                },
            }
        }
        k += 1;
    }
    proof {
        match best {
            Some(i) => {
                assert(is_best(all, commit_hash@, i as int));
                let c = choose|c: int| is_best(all, commit_hash@, c);
                lemma_best_is_unique(all, commit_hash@, c, i as int);
            },
            None => {
                assert forall|i: int| !is_best(all, commit_hash@, i) by {
                    if 0 <= i < all.len() {
                        assert(!is_match(all[i], commit_hash@));
                    }
                }
            },
        }
    }
    best
}

/// How strongly a session is tied to a commit.
#[derive(Debug, Clone, Copy, PartialEq, Eq, Structural)]
pub enum Confidence {
    /// The session mentions the commit and ran in its repository.
    ExactHashMatch,
}

/// The name under which a confidence appears in an annotation.
pub open spec fn confidence_name(confidence: Confidence) -> Seq<char> {
    match confidence {
        Confidence::ExactHashMatch => "exact_hash_match"@,
    }
}

impl Confidence {
    pub fn as_str(self) -> (r: &'static str)
        ensures
            r@ == confidence_name(self),
    {
        match self {
            Confidence::ExactHashMatch => "exact_hash_match",
        }
    }
}

/// The confidence with which a session belongs to a commit: the session
/// must mention the commit, and must have run in the repository of the
/// commit. Either alone is not enough.
pub open spec fn verified(
    content: Seq<char>,
    recorded_cwd: Option<Seq<char>>,
    repo_root: Seq<char>,
    hash: Seq<char>,
) -> Option<Confidence> {
    if mentions_commit(content, hash) && recorded_cwd == Some(repo_root) {
        Some(Confidence::ExactHashMatch)
    } else {
        None
    }
}

/// Checks a matched session against the repository. `recorded_cwd` and
/// `repo_root` are given in canonical form.
pub fn verify_match(
    content: &str,
    recorded_cwd: Option<&str>,
    repo_root: &str,
    commit_hash: &str,
) -> (r: Option<Confidence>)
    ensures
        r == verified(
            content@,
            match recorded_cwd {
                Some(cwd) => Some(cwd@),
                None => None,
            },
            repo_root@,
            commit_hash@,
        ),
{
    match recorded_cwd {
        Some(cwd) => {
            if str_eq(cwd, repo_root) && content_mentions_commit(content, commit_hash) {
                Some(Confidence::ExactHashMatch)
            } else {
                None
            }
        },
        None => None,
    }
}

} // verus!
