use ai_barometer::pending::{
    encode_record, has_json_extension, list_for_repo, pending_dir, pending_file_name,
    pending_record, remove, write_pending, PendingDir, PendingError, PendingFile, PendingRecord,
};

#[test]
fn test_pending_record_struct() {
    let record = PendingRecord {
        commit: "abcdef0123456789abcdef0123456789abcdef01".to_string(),
        repo: "/Users/foo/bar".to_string(),
        commit_time: 1_700_000_000,
        attempts: 1,
        last_attempt: 1_700_000_060,
    };
    assert_eq!(record.commit, "abcdef0123456789abcdef0123456789abcdef01");
    assert_eq!(record.repo, "/Users/foo/bar");
    assert_eq!(record.attempts, 1);
}

fn file(name: &str, content: Option<&str>) -> PendingFile {
    PendingFile {
        name: name.to_string(),
        content: content.map(|c| c.to_string()),
    }
}

#[test]
fn pending_dir_lies_below_home() {
    assert_eq!(pending_dir(Some("/home/u")), Ok("/home/u/.ai-barometer/pending".to_string()));
    assert_eq!(pending_dir(Some("/home/u/")), Ok("/home/u/.ai-barometer/pending".to_string()));
    assert_eq!(pending_dir(Some("")), Ok(".ai-barometer/pending".to_string()));
    assert_eq!(pending_dir(None), Err(PendingError::NoHome));
    let expected = std::path::Path::new("/home/u").join(".ai-barometer").join("pending");
    assert_eq!(pending_dir(Some("/home/u")).unwrap(), expected.to_string_lossy());
}

#[test]
fn pending_file_is_named_after_the_commit() {
    assert_eq!(pending_file_name("abc123"), "abc123.json");
    assert!(has_json_extension("abc123.json"));
    assert!(has_json_extension("..json"));
    assert!(!has_json_extension(".json"));
    assert!(!has_json_extension("abc123.txt"));
    assert!(!has_json_extension("json"));
    assert!(!has_json_extension("abc.JSON"));
    for name in ["a.json", ".json", "x", "a.b.json", "a.json.bak", "..json"] {
        let by_std = std::path::Path::new(name).extension().and_then(|e| e.to_str()) == Some("json");
        assert_eq!(has_json_extension(name), by_std);
    }
}

#[test]
fn new_record_starts_at_one_attempt() {
    let record = pending_record("c1", "/r", 100, 160);
    assert_eq!(
        record,
        PendingRecord {
            commit: "c1".to_string(),
            repo: "/r".to_string(),
            commit_time: 100,
            attempts: 1,
            last_attempt: 160,
        }
    );
}

#[test]
fn record_is_written_as_json() {
    let text = encode_record(&pending_record("c1", "/r\"x", -5, 160));
    assert!(text.contains("\"commit\": \"c1\""));
    assert!(text.contains("\"repo\": \"/r\\\"x\""));
    assert!(text.contains("\"commit_time\": -5"));
    assert!(text.contains("\"attempts\": 1"));
    assert!(text.contains("\"last_attempt\": 160"));
    assert!(text.starts_with("{\n"));
}

#[test]
fn write_then_list_gives_the_record_back() {
    let mut dir = PendingDir { files: Vec::new() };
    write_pending(&mut dir, "c1", "/r", 100, 160);
    write_pending(&mut dir, "c2", "/other", 200, 260);
    assert_eq!(dir.files.len(), 2);
    assert_eq!(dir.files[0].name, "c1.json");
    let listed = list_for_repo(&dir, "/r");
    assert_eq!(listed, vec![pending_record("c1", "/r", 100, 160)]);
    assert_eq!(list_for_repo(&dir, "/other"), vec![pending_record("c2", "/other", 200, 260)]);
    assert_eq!(list_for_repo(&dir, "/none"), Vec::<PendingRecord>::new());
}

#[test]
fn write_replaces_the_record_of_the_same_commit() {
    let mut dir = PendingDir { files: Vec::new() };
    write_pending(&mut dir, "c1", "/r", 100, 160);
    write_pending(&mut dir, "c2", "/r", 200, 260);
    write_pending(&mut dir, "c1", "/r", 100, 999);
    assert_eq!(dir.files.len(), 2);
    assert_eq!(dir.files[0].name, "c2.json");
    assert_eq!(dir.files[1].name, "c1.json");
    let listed = list_for_repo(&dir, "/r");
    assert_eq!(listed.len(), 2);
    assert_eq!(listed[1].last_attempt, 999);
    assert_eq!(listed[1].attempts, 1);
}

#[test]
fn remove_takes_the_record_away() {
    let mut dir = PendingDir { files: Vec::new() };
    write_pending(&mut dir, "c1", "/r", 100, 160);
    write_pending(&mut dir, "c2", "/r", 200, 260);
    remove(&mut dir, "c1");
    assert_eq!(dir.files.len(), 1);
    assert_eq!(dir.files[0].name, "c2.json");
    remove(&mut dir, "c1");
    remove(&mut dir, "absent");
    assert_eq!(dir.files.len(), 1);
    assert_eq!(list_for_repo(&dir, "/r"), vec![pending_record("c2", "/r", 200, 260)]);
}

#[test]
fn list_passes_over_what_it_cannot_use() {
    let dir = PendingDir {
        files: vec![
            file("notes.txt", Some("{\"repo\": \"/r\", \"commit\": \"skipped\"}")),
            file("unreadable.json", None),
            file("broken.json", Some("{\"repo\": \"/r\", ")),
            file("elsewhere.json", Some("{\"repo\": \"/elsewhere\", \"commit\": \"e\"}")),
            file("array.json", Some("[1, 2, 3]")),
            file(
                "good.json",
                Some("{\"commit\": \"g\", \"repo\": \"/r\", \"commit_time\": 7, \"attempts\": 3, \"last_attempt\": 9}"),
            ),
            file("nameless.json", Some("{\"repo\": \"/r\", \"commit_time\": 5, \"attempts\": 1}")),
            file("numbered.json", Some("{\"repo\": \"/r\", \"commit\": 17}")),
            file("blank.json", Some("{\"repo\": \"/r\", \"commit\": \"\"}")),
            file("homeless.json", Some("{\"commit\": \"h\"}")),
            file("partial.json", Some("{\"repo\": \"/r\", \"commit\": \"p\", \"commit_time\": \"soon\", \"attempts\": -1}")),
            file("big.json", Some("{\"repo\": \"/r\", \"commit\": \"b\", \"attempts\": 4294967298}")),
        ],
    };
    let listed = list_for_repo(&dir, "/r");
    assert_eq!(
        listed,
        vec![
            PendingRecord {
                commit: "g".to_string(),
                repo: "/r".to_string(),
                commit_time: 7,
                attempts: 3,
                last_attempt: 9,
            },
            PendingRecord {
                commit: "p".to_string(),
                repo: "/r".to_string(),
                commit_time: 0,
                attempts: 0,
                last_attempt: 0,
            },
            PendingRecord {
                commit: "b".to_string(),
                repo: "/r".to_string(),
                commit_time: 0,
                attempts: 2,
                last_attempt: 0,
            },
        ]
    );
    assert!(listed.iter().all(|r| !r.commit.is_empty()));
    assert_eq!(list_for_repo(&dir, ""), Vec::<PendingRecord>::new());
}

#[test]
fn empty_directory_lists_nothing() {
    let dir = PendingDir { files: Vec::new() };
    assert_eq!(list_for_repo(&dir, "/r"), Vec::<PendingRecord>::new());
}
