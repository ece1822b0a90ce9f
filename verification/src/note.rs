//! The text of an annotation.

use vstd::prelude::*;
use vstd::string::*;
use crate::scanner::{confidence_name, Confidence};

verus! {

/// The provenance lines that open an annotation.
pub open spec fn note_header(
    agent: Seq<char>,
    session_id: Seq<char>,
    repo_root: Seq<char>,
    commit: Seq<char>,
) -> Seq<char> {
    "agent: "@ + agent + "\n"@ + "session_id: "@ + session_id + "\n"@ + "repo: "@
        + repo_root + "\n"@ + "commit: "@ + commit + "\n"@ + "confidence: "@ + confidence_name(
        Confidence::ExactHashMatch,
    ) + "\n"@ + "---\n"@
}

/// An annotation: the provenance lines, then the transcript as it is.
pub open spec fn note_text(
    agent: Seq<char>,
    session_id: Seq<char>,
    repo_root: Seq<char>,
    commit: Seq<char>,
    raw_log: Seq<char>,
) -> Seq<char> {
    note_header(agent, session_id, repo_root, commit) + raw_log
}

/// Formats the annotation for a verified session.
pub fn format(
    agent: &str,
    session_id: &str,
    repo_root: &str,
    commit: &str,
    raw_log: &str,
) -> (r: String)
    ensures
        r@ == note_text(agent@, session_id@, repo_root@, commit@, raw_log@),
{
    let mut s = "agent: ".to_owned();
    s.append(agent);
    s.append("\n");
    s.append("session_id: ");
    s.append(session_id);
    s.append("\n");
    s.append("repo: ");
    s.append(repo_root);
    s.append("\n");
    s.append("commit: ");
    s.append(commit);
    s.append("\n");
    s.append("confidence: ");
    s.append(Confidence::ExactHashMatch.as_str());
    s.append("\n");
    s.append("---\n");
    s.append(raw_log);
    s
}

/// An annotation ends with the whole transcript: nothing of it is cut off
/// or changed.
pub proof fn lemma_note_keeps_transcript(
    agent: Seq<char>,
    session_id: Seq<char>,
    repo_root: Seq<char>,
    commit: Seq<char>,
    raw_log: Seq<char>,
)
    ensures
        ({
            let note = note_text(agent, session_id, repo_root, commit, raw_log);
            note.len() >= raw_log.len() && note.subrange(
                note.len() - raw_log.len(),
                note.len() as int,
            ) == raw_log
        }),
{
    let note = note_text(agent, session_id, repo_root, commit, raw_log);
    assert(note.subrange(note.len() - raw_log.len(), note.len() as int) =~= raw_log);
}

} // verus!
