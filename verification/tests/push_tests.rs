use ai_barometer::config::{Config, Scope};
use ai_barometer::push::{
    attempt_push, check_enabled, check_or_request_consent, check_org_filter, remote_org,
    remote_orgs, should_push, Remotes,
};
use ai_barometer::text::eq_ignore_ascii_case;

fn remotes(has_upstream: Option<bool>, orgs: Option<&[&str]>) -> Remotes {
    Remotes {
        has_upstream,
        orgs: orgs.map(|list| list.iter().map(|o| o.to_string()).collect()),
    }
}

#[test]
fn test_check_enabled_default_true() {
    let config = Config::new();
    assert!(check_enabled(&config));
}

#[test]
fn test_check_enabled_explicitly_true() {
    let mut config = Config::new();
    config.set(Scope::Repo, "ai.barometer.enabled", "true");
    assert!(check_enabled(&config));
}

#[test]
fn test_check_enabled_explicitly_false() {
    let mut config = Config::new();
    config.set(Scope::Repo, "ai.barometer.enabled", "false");
    assert!(!check_enabled(&config));
}

#[test]
fn test_check_enabled_other_value_treated_as_true() {
    let mut config = Config::new();
    config.set(Scope::Repo, "ai.barometer.enabled", "yes");
    assert!(check_enabled(&config));
}

#[test]
fn enabled_is_a_repository_setting() {
    let mut config = Config::new();
    config.set(Scope::Global, "ai.barometer.enabled", "false");
    assert!(check_enabled(&config));
    config.set(Scope::Repo, "ai.barometer.enabled", "false");
    config.set(Scope::Repo, "ai.barometer.enabled", "true");
    assert!(check_enabled(&config));
}

#[test]
fn test_consent_first_time_grants_and_records() {
    let mut config = Config::new();
    let mut log = Vec::new();
    assert!(check_or_request_consent(&mut config, &mut log));
    let val = config.get(Scope::Repo, "ai.barometer.autopush");
    assert_eq!(val, Some("true".to_string()));
    assert_eq!(
        log,
        vec![
            "[ai-barometer] This is the first time AI Barometer will push notes for this repository."
                .to_string(),
            "[ai-barometer] AI session notes will be pushed to the remote via:".to_string(),
            "[ai-barometer]   git push origin refs/notes/ai-sessions".to_string(),
            "[ai-barometer] To disable, run: git config ai.barometer.autopush false".to_string(),
        ]
    );
}

#[test]
fn test_consent_already_true() {
    let mut config = Config::new();
    let mut log = Vec::new();
    config.set(Scope::Repo, "ai.barometer.autopush", "true");
    assert!(check_or_request_consent(&mut config, &mut log));
    assert!(log.is_empty());
}

#[test]
fn test_consent_explicitly_false_denies() {
    let mut config = Config::new();
    let mut log = Vec::new();
    config.set(Scope::Repo, "ai.barometer.autopush", "false");
    assert!(!check_or_request_consent(&mut config, &mut log));
    assert!(log.is_empty());
    assert_eq!(config.get(Scope::Repo, "ai.barometer.autopush"), Some("false".to_string()));
}

#[test]
fn test_consent_second_call_is_silent() {
    let mut config = Config::new();
    let mut log = Vec::new();
    assert!(check_or_request_consent(&mut config, &mut log));
    let printed = log.len();
    assert_eq!(printed, 4);
    assert_eq!(config.entries.len(), 1);
    assert!(check_or_request_consent(&mut config, &mut log));
    assert_eq!(log.len(), printed);
    assert_eq!(config.entries.len(), 1);
}

#[test]
fn consent_with_another_value_is_asked_again() {
    let mut config = Config::new();
    let mut log = Vec::new();
    config.set(Scope::Repo, "ai.barometer.autopush", "maybe");
    assert!(check_or_request_consent(&mut config, &mut log));
    assert_eq!(log.len(), 4);
    assert_eq!(config.get(Scope::Repo, "ai.barometer.autopush"), Some("true".to_string()));
}

#[test]
fn test_org_filter_no_config_allows_push() {
    let config = Config::new();
    assert!(check_org_filter(&config, &None));
    assert!(check_org_filter(&config, &Some(vec!["any".to_string()])));
}

#[test]
fn test_org_filter_matching_org_allows_push() {
    let mut config = Config::new();
    config.set(Scope::Global, "ai.barometer.org", "My-Org");
    assert!(check_org_filter(&config, &Some(vec!["other".to_string(), "my-org".to_string()])));
}

#[test]
fn test_org_filter_no_remote_denies_push() {
    let mut config = Config::new();
    config.set(Scope::Global, "ai.barometer.org", "my-org");
    assert!(!check_org_filter(&config, &Some(Vec::new())));
    assert!(!check_org_filter(&config, &None));
    assert!(!check_org_filter(&config, &Some(vec!["my-org2".to_string()])));
}

#[test]
fn test_org_filter_case_insensitive_matching() {
    let configured = "My-Org";
    let remote = "my-org";
    assert!(eq_ignore_ascii_case(remote, configured));

    let configured2 = "ACME";
    let remote2 = "acme";
    assert!(eq_ignore_ascii_case(remote2, configured2));
}

#[test]
fn case_is_ignored_for_ascii_letters_only() {
    assert!(!eq_ignore_ascii_case("acme", "acme2"));
    assert!(!eq_ignore_ascii_case("é", "É"));
    assert!(eq_ignore_ascii_case("", ""));
    assert!(!eq_ignore_ascii_case("a-b", "a_b"));
    for (a, b) in [("Org", "oRG"), ("x", "y"), ("", "a"), ("Zz", "zZ"), ("@", "`")] {
        assert_eq!(eq_ignore_ascii_case(a, b), a.eq_ignore_ascii_case(b));
    }
}

#[test]
fn test_should_push_no_remote_returns_false() {
    let mut config = Config::new();
    let mut log = Vec::new();
    assert!(!should_push(&mut config, &remotes(Some(false), Some(&[])), &mut log));
    assert!(!should_push(&mut config, &remotes(None, Some(&["org"])), &mut log));
    assert!(log.is_empty());
    assert_eq!(config.get(Scope::Repo, "ai.barometer.autopush"), None);
}

#[test]
fn test_should_push_with_remote_and_consent() {
    let mut config = Config::new();
    let mut log = Vec::new();
    config.set(Scope::Repo, "ai.barometer.autopush", "true");
    assert!(should_push(&mut config, &remotes(Some(true), Some(&["test-org"])), &mut log));
    assert!(log.is_empty());
}

#[test]
fn test_should_push_consent_denied_returns_false() {
    let mut config = Config::new();
    let mut log = Vec::new();
    config.set(Scope::Repo, "ai.barometer.autopush", "false");
    assert!(!should_push(&mut config, &remotes(Some(true), Some(&["test-org"])), &mut log));
}

#[test]
fn first_push_records_consent() {
    let mut config = Config::new();
    let mut log = Vec::new();
    let r = remotes(Some(true), Some(&["test-org"]));
    assert!(should_push(&mut config, &r, &mut log));
    assert_eq!(config.get(Scope::Repo, "ai.barometer.autopush"), Some("true".to_string()));
    assert_eq!(log.len(), 4);
    assert!(should_push(&mut config, &r, &mut log));
    assert_eq!(log.len(), 4);
}

#[test]
fn org_filter_without_match_forbids_push_whatever_the_consent() {
    for consent in [None, Some("true"), Some("false")] {
        let mut config = Config::new();
        let mut log = Vec::new();
        config.set(Scope::Global, "ai.barometer.org", "wanted");
        if let Some(value) = consent {
            config.set(Scope::Repo, "ai.barometer.autopush", value);
        }
        assert!(!should_push(&mut config, &remotes(Some(true), Some(&["other"])), &mut log));
        assert!(log.is_empty());
        assert_eq!(
            config.get(Scope::Repo, "ai.barometer.autopush"),
            consent.map(|c| c.to_string())
        );
    }
}

#[test]
fn test_attempt_push_failure_does_not_panic() {
    let mut log = Vec::new();
    attempt_push(&Err("no remote".to_string()), &mut log);
    assert_eq!(
        log,
        vec!["[ai-barometer] warning: failed to push notes: no remote".to_string()]
    );
}

#[test]
fn test_attempt_push_with_unreachable_remote_does_not_panic() {
    let mut log = vec!["before".to_string()];
    attempt_push(&Err("could not read from remote repository".to_string()), &mut log);
    assert_eq!(log.len(), 2);
    attempt_push(&Ok(()), &mut log);
    assert_eq!(log.len(), 2);
}

#[test]
fn config_keeps_the_last_value() {
    let mut config = Config::new();
    assert_eq!(config.get(Scope::Repo, "k"), None);
    config.set(Scope::Repo, "k", "one");
    config.set(Scope::Global, "k", "two");
    config.set(Scope::Repo, "k", "three");
    assert_eq!(config.get(Scope::Repo, "k"), Some("three".to_string()));
    assert_eq!(config.get(Scope::Global, "k"), Some("two".to_string()));
    assert_eq!(config.get(Scope::Global, "K"), None);
    assert_eq!(config.entries.len(), 3);
}

#[test]
fn remote_org_is_read_from_the_address() {
    assert_eq!(remote_org("git@github.com:my-org/my-repo.git"), Some("my-org".to_string()));
    assert_eq!(remote_org("https://github.com/org-two/repo2.git"), Some("org-two".to_string()));
    assert_eq!(remote_org("ssh://git@host:22/team/repo"), Some("team".to_string()));
    assert_eq!(remote_org("https://host/a/b/c"), Some("a".to_string()));
    assert_eq!(remote_org("/srv/git/repo.git"), None);
    assert_eq!(remote_org("https://github.com"), None);
    assert_eq!(remote_org("https://github.com/solo"), None);
    assert_eq!(remote_org("host:repo.git"), None);
    assert_eq!(remote_org("host:/abs/repo"), None);
    assert_eq!(remote_org(""), None);
    assert_eq!(remote_org("a:"), None);
    assert_eq!(remote_org("a:/"), None);
    assert_eq!(remote_org("a://"), None);
}

#[test]
fn test_remote_orgs_multiple_remotes() {
    let orgs = remote_orgs(&vec![
        "git@github.com:org-one/repo1.git".to_string(),
        "https://github.com/org-two/repo2.git".to_string(),
    ]);
    assert_eq!(orgs.len(), 2);
    assert!(orgs.contains(&"org-one".to_string()));
    assert!(orgs.contains(&"org-two".to_string()));
}

#[test]
fn test_remote_orgs_deduplicates() {
    let orgs = remote_orgs(&vec![
        "git@github.com:same-org/repo1.git".to_string(),
        "https://github.com/same-org/repo2.git".to_string(),
    ]);
    assert_eq!(orgs.len(), 1);
    assert_eq!(orgs[0], "same-org");
}

#[test]
fn remote_orgs_keep_first_appearance_order() {
    let orgs = remote_orgs(&vec![
        "h:b/x".to_string(),
        "/local".to_string(),
        "h:a/x".to_string(),
        "h:b/y".to_string(),
    ]);
    assert_eq!(orgs, vec!["b".to_string(), "a".to_string()]);
    assert_eq!(remote_orgs(&Vec::new()), Vec::<String>::new());
}
