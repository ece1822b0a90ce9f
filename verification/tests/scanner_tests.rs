use ai_barometer::discovery::CandidateFile;
use ai_barometer::note;
use ai_barometer::scanner::{
    content_mentions_commit, find_session_for_commit, parse_session_metadata, short_hash_of,
    verify_match, Confidence, Session, SessionMetadata,
};

const HASH: &str = "abcdef0123456789abcdef0123456789abcdef01";

fn session(path: &str, modified: i64, content: Option<&str>) -> Session {
    Session {
        file: CandidateFile {
            path: path.to_string(),
            agent: "codex".to_string(),
            modified,
        },
        content: content.map(|c| c.to_string()),
    }
}

#[test]
fn short_hash_is_seven_characters() {
    assert_eq!(short_hash_of(HASH), "abcdef0");
    assert_eq!(short_hash_of("abc"), "abc");
    assert_eq!(short_hash_of("1234567"), "1234567");
    assert_eq!(short_hash_of(""), "");
}

#[test]
fn content_mentions_full_or_short_hash() {
    assert!(content_mentions_commit("[main abcdef0] initial commit", HASH));
    assert!(content_mentions_commit(&format!("commit {}", HASH), HASH));
    assert!(!content_mentions_commit("[main abcdef1] initial commit", HASH));
    assert!(!content_mentions_commit("abcdef", HASH));
    assert!(!content_mentions_commit("", HASH));
    assert!(!content_mentions_commit("anything", ""));
    assert!(content_mentions_commit("xabcx", "abc"));
}

#[test]
fn metadata_takes_the_first_id_and_directory() {
    let content = "not json at all\n{\"type\":\"start\"}\n{\"session_id\":\"s-1\",\"cwd\":\"/r\"}\n{\"session_id\":\"s-2\",\"cwd\":\"/other\"}\n";
    assert_eq!(
        parse_session_metadata(content),
        SessionMetadata {
            session_id: Some("s-1".to_string()),
            cwd: Some("/r".to_string()),
        }
    );
}

#[test]
fn metadata_may_come_from_different_lines() {
    let content = "{\"cwd\":\"/r\"}\r\n{\"session_id\": 7}\r\n{\"session_id\":\"late\"}";
    assert_eq!(
        parse_session_metadata(content),
        SessionMetadata {
            session_id: Some("late".to_string()),
            cwd: Some("/r".to_string()),
        }
    );
}

#[test]
fn unparsable_log_gives_empty_metadata() {
    let empty = SessionMetadata {
        session_id: None,
        cwd: None,
    };
    assert_eq!(parse_session_metadata(""), empty);
    assert_eq!(parse_session_metadata("\n\n"), empty);
    assert_eq!(parse_session_metadata("{\"session_id\": \"cut"), empty);
    assert_eq!(parse_session_metadata("[\"session_id\", \"cwd\"]"), empty);
}

#[test]
fn no_session_matches_without_the_hash() {
    let sessions = vec![
        session("a", 10, Some("nothing here")),
        session("b", 20, None),
    ];
    assert_eq!(find_session_for_commit(HASH, &sessions), None);
    assert_eq!(find_session_for_commit(HASH, &Vec::new()), None);
}

#[test]
fn latest_matching_session_wins() {
    let sessions = vec![
        session("old", 10, Some("abcdef0")),
        session("unread", 99, None),
        session("new", 30, Some("x abcdef0 y")),
        session("other", 50, Some("no match")),
        session("middle", 20, Some("abcdef0")),
    ];
    assert_eq!(find_session_for_commit(HASH, &sessions), Some(2));
}

#[test]
fn first_of_equally_recent_sessions_wins() {
    let sessions = vec![
        session("x", 5, Some("abcdef0")),
        session("first", 30, Some("abcdef0")),
        session("second", 30, Some("abcdef0")),
    ];
    assert_eq!(find_session_for_commit(HASH, &sessions), Some(1));
}

#[test]
fn match_needs_hash_and_directory() {
    assert_eq!(
        verify_match("[main abcdef0] done", Some("/r"), "/r", HASH),
        Some(Confidence::ExactHashMatch)
    );
    assert_eq!(verify_match("[main abcdef0] done", Some("/elsewhere"), "/r", HASH), None);
    assert_eq!(verify_match("[main abcdef0] done", None, "/r", HASH), None);
    assert_eq!(verify_match("no hash", Some("/r"), "/r", HASH), None);
    assert_eq!(verify_match("[main abcdef0] done", Some("/r/"), "/r", HASH), None);
    assert_eq!(Confidence::ExactHashMatch.as_str(), "exact_hash_match");
}

#[test]
fn note_has_provenance_then_transcript() {
    let note = note::format("codex", "s-1", "/r", HASH, "line one\nline two\n");
    assert_eq!(
        note,
        format!(
            "agent: codex\nsession_id: s-1\nrepo: /r\ncommit: {}\nconfidence: exact_hash_match\n---\nline one\nline two\n",
            HASH
        )
    );
}

#[test]
fn note_keeps_the_transcript_whole() {
    let log = "{\"a\": \"é\"}\n---\n\u{0}\n";
    let note = note::format("codex", "unknown", "/r", HASH, log);
    assert!(note.ends_with(log));
    assert!(note.contains("session_id: unknown\n"));
    let empty = note::format("codex", "s", "/r", HASH, "");
    assert!(empty.ends_with("confidence: exact_hash_match\n---\n"));
}
