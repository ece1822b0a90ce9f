use ai_barometer::discovery::{
    builtin_integrations, all_log_dirs, candidate_files, encode_repo_path, log_dirs, within_window, CandidateFile,
    Integration, LogDir, DEFAULT_WINDOW_SECONDS,
};

fn candidate(path: &str, modified: i64) -> CandidateFile {
    CandidateFile {
        path: path.to_string(),
        agent: "codex".to_string(),
        modified,
    }
}

fn per_repo() -> Integration {
    Integration {
        name: "agent-a".to_string(),
        root: ".agent-a/projects".to_string(),
        per_repository: true,
    }
}

fn shared() -> Integration {
    Integration {
        name: "codex".to_string(),
        root: ".codex/sessions".to_string(),
        per_repository: false,
    }
}

#[test]
fn default_window_is_ten_minutes() {
    assert_eq!(DEFAULT_WINDOW_SECONDS, 600);
}

#[test]
fn window_boundary_is_inclusive() {
    let target = 1_700_000_000;
    let files = vec![
        candidate("before-out", target - 601),
        candidate("before-edge", target - 600),
        candidate("exact", target),
        candidate("after-edge", target + 600),
        candidate("after-out", target + 601),
    ];
    let kept = candidate_files(&files, target, 600);
    let names: Vec<&str> = kept.iter().map(|f| f.path.as_str()).collect();
    assert_eq!(names, vec!["before-edge", "exact", "after-edge"]);
    assert!(within_window(target + 600, target, 600));
    assert!(within_window(target - 600, target, 600));
    assert!(!within_window(target + 601, target, 600));
    assert!(!within_window(target - 601, target, 600));
}

#[test]
fn window_at_the_ends_of_time() {
    assert!(within_window(i64::MAX, i64::MAX, 600));
    assert!(within_window(i64::MAX - 600, i64::MAX, 600));
    assert!(!within_window(i64::MAX - 601, i64::MAX, 600));
    assert!(within_window(i64::MIN, i64::MIN + 600, 600));
    assert!(within_window(0, 0, 0));
    assert!(!within_window(1, 0, 0));
    assert!(!within_window(0, 0, -1));
    assert!(within_window(0, i64::MAX, i64::MAX));
    assert!(!within_window(-1, i64::MAX, i64::MAX));
    assert!(within_window(i64::MIN, -1, i64::MAX));
}

#[test]
fn candidates_keep_their_order_and_fields() {
    let files = vec![candidate("b", 10), candidate("a", 5), candidate("c", 2000)];
    let kept = candidate_files(&files, 0, 600);
    assert_eq!(kept, vec![candidate("b", 10), candidate("a", 5)]);
    assert_eq!(candidate_files(&Vec::new(), 0, 600), Vec::<CandidateFile>::new());
}

#[test]
fn repo_path_is_encoded_with_dashes() {
    assert_eq!(encode_repo_path("/Users/foo/bar"), "-Users-foo-bar");
    assert_eq!(encode_repo_path("plain"), "plain");
    assert_eq!(encode_repo_path(""), "");
    assert_eq!(encode_repo_path("/a-b/c"), "-a-b-c");
}

#[test]
fn log_dirs_follow_the_integration() {
    assert_eq!(
        log_dirs(&per_repo(), "/home/u", "/Users/foo/bar"),
        vec![LogDir {
            path: "/home/u/.agent-a/projects/-Users-foo-bar".to_string(),
            agent: "agent-a".to_string(),
        }]
    );
    assert_eq!(
        log_dirs(&shared(), "/home/u/", "/Users/foo/bar"),
        vec![LogDir {
            path: "/home/u/.codex/sessions".to_string(),
            agent: "codex".to_string(),
        }]
    );
}

#[test]
fn log_dirs_of_all_integrations_are_joined() {
    let dirs = all_log_dirs(&vec![per_repo(), shared()], "/h", "/r");
    assert_eq!(dirs.len(), 2);
    assert_eq!(dirs[0].path, "/h/.agent-a/projects/-r");
    assert_eq!(dirs[1].path, "/h/.codex/sessions");
    assert_eq!(all_log_dirs(&Vec::new(), "/h", "/r"), Vec::<LogDir>::new());
}

#[test]
fn builtin_integrations_are_listed() {
    let list = builtin_integrations();
    assert_eq!(list, vec![shared()]);
    assert_eq!(all_log_dirs(&list, "/home/u", "/r")[0].path, "/home/u/.codex/sessions");
}
