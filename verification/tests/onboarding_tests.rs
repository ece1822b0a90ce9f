use ai_barometer::config::{Config, Scope};
use ai_barometer::onboarding::{
    add_selected_repo, canonical_repo_root, get_email, get_scope_mode, get_selected_repos,
    is_repo_in_scope, normalize_email, parse_scope_mode, remove_selected_repo, set_email,
    set_scope_mode, set_scope_mode_with_context, OnboardingError, RepoContext, ScopeMode,
};

#[test]
fn normalize_email_accepts_basic() {
    assert_eq!(
        normalize_email("User@Example.com"),
        Some("user@example.com".to_string())
    );
}

#[test]
fn normalize_email_rejects_invalid() {
    assert_eq!(normalize_email(""), None);
    assert_eq!(normalize_email("foo"), None);
    assert_eq!(normalize_email("foo@bar"), None);
    assert_eq!(normalize_email("foo@bar."), None);
    assert_eq!(normalize_email("foo bar@example.com"), None);
}

#[test]
fn normalize_email_edges() {
    assert_eq!(normalize_email("  a@b.c \n"), Some("a@b.c".to_string()));
    assert_eq!(normalize_email("@b.c"), None);
    assert_eq!(normalize_email("a@"), None);
    assert_eq!(normalize_email("a@.b.c"), None);
    assert_eq!(normalize_email("a@b@c.d"), Some("a@b@c.d".to_string()));
    assert_eq!(normalize_email("   "), None);
}

#[test]
fn parse_scope_mode_values() {
    assert_eq!(parse_scope_mode("current"), Some(ScopeMode::Current));
    assert_eq!(parse_scope_mode("all"), Some(ScopeMode::All));
    assert_eq!(parse_scope_mode("selected"), Some(ScopeMode::Selected));
    assert_eq!(parse_scope_mode("unknown"), None);
}

#[test]
fn parse_scope_mode_ignores_case_and_space() {
    assert_eq!(parse_scope_mode("  ALL\n"), Some(ScopeMode::All));
    assert_eq!(parse_scope_mode("Selected"), Some(ScopeMode::Selected));
    assert_eq!(parse_scope_mode(""), None);
    assert_eq!(parse_scope_mode("a ll"), None);
}

#[test]
fn scope_mode_names() {
    assert_eq!(ScopeMode::Current.as_str(), "current");
    assert_eq!(ScopeMode::All.as_str(), "all");
    assert_eq!(ScopeMode::Selected.as_str(), "selected");
}

#[test]
fn email_is_stored_in_normal_form() {
    let mut config = Config::new();
    assert_eq!(get_email(&config), None);
    assert_eq!(set_email(&mut config, " Me@Example.COM "), Ok("me@example.com".to_string()));
    assert_eq!(get_email(&config), Some("me@example.com".to_string()));
    assert_eq!(
        config.get(Scope::Global, "ai.session-commit-linker.email"),
        Some("me@example.com".to_string())
    );
    assert_eq!(set_email(&mut config, "nobody"), Err(OnboardingError::InvalidEmail));
    assert_eq!(get_email(&config), Some("me@example.com".to_string()));
}

#[test]
fn blank_email_counts_as_none() {
    let mut config = Config::new();
    config.set(Scope::Global, "ai.session-commit-linker.email", "   ");
    assert_eq!(get_email(&config), None);
    config.set(Scope::Global, "ai.session-commit-linker.email", " x@y.z ");
    assert_eq!(get_email(&config), Some("x@y.z".to_string()));
}

#[test]
fn scope_mode_defaults_to_all() {
    let mut config = Config::new();
    assert_eq!(get_scope_mode(&config), ScopeMode::All);
    config.set(Scope::Global, "ai.session-commit-linker.scope", "nonsense");
    assert_eq!(get_scope_mode(&config), ScopeMode::All);
    set_scope_mode(&mut config, ScopeMode::Selected);
    assert_eq!(get_scope_mode(&config), ScopeMode::Selected);
    assert_eq!(
        config.get(Scope::Global, "ai.session-commit-linker.scope"),
        Some("selected".to_string())
    );
}

#[test]
fn selected_repos_round_trip() {
    let mut config = Config::new();
    assert_eq!(get_selected_repos(&config), Vec::<String>::new());
    assert_eq!(add_selected_repo(&mut config, Some("/r/one")), Ok("/r/one".to_string()));
    assert_eq!(add_selected_repo(&mut config, Some("/r/two")), Ok("/r/two".to_string()));
    assert_eq!(add_selected_repo(&mut config, Some("/r/one")), Ok("/r/one".to_string()));
    assert_eq!(
        get_selected_repos(&config),
        vec!["/r/one".to_string(), "/r/two".to_string()]
    );
    assert_eq!(
        config.get(Scope::Global, "ai.session-commit-linker.scope.selected"),
        Some("[\"/r/one\",\"/r/two\"]".to_string())
    );
    assert_eq!(remove_selected_repo(&mut config, Some("/r/one")), Ok("/r/one".to_string()));
    assert_eq!(get_selected_repos(&config), vec!["/r/two".to_string()]);
    assert_eq!(
        add_selected_repo(&mut config, None),
        Err(OnboardingError::NotARepository)
    );
    assert_eq!(
        remove_selected_repo(&mut config, None),
        Err(OnboardingError::NotARepository)
    );
}

#[test]
fn unreadable_selected_list_counts_as_empty() {
    let mut config = Config::new();
    config.set(Scope::Global, "ai.session-commit-linker.scope.selected", "not json");
    assert_eq!(get_selected_repos(&config), Vec::<String>::new());
    config.set(Scope::Global, "ai.session-commit-linker.scope.selected", "[1, 2]");
    assert_eq!(get_selected_repos(&config), Vec::<String>::new());
}

#[test]
fn repo_in_scope_by_mode() {
    let mut config = Config::new();
    assert!(is_repo_in_scope(&config, "/anywhere"));
    let here = RepoContext { explicit: false, root: Some("/r/here".to_string()) };
    assert_eq!(set_scope_mode_with_context(&mut config, ScopeMode::Current, &here), Ok(()));
    assert!(is_repo_in_scope(&config, "/r/here"));
    assert!(!is_repo_in_scope(&config, "/r/there"));
    let there = RepoContext { explicit: true, root: Some("/r/there".to_string()) };
    assert_eq!(set_scope_mode_with_context(&mut config, ScopeMode::Selected, &there), Ok(()));
    assert!(is_repo_in_scope(&config, "/r/there"));
    assert!(!is_repo_in_scope(&config, "/r/here"));
    assert_eq!(set_scope_mode_with_context(&mut config, ScopeMode::All, &there), Ok(()));
    assert!(is_repo_in_scope(&config, "/r/nowhere"));
}

#[test]
fn scope_mode_is_set_even_when_the_repository_is_missing() {
    let mut config = Config::new();
    let nowhere = RepoContext { explicit: false, root: None };
    assert_eq!(
        set_scope_mode_with_context(&mut config, ScopeMode::Current, &nowhere),
        Err(OnboardingError::NotARepository)
    );
    assert_eq!(get_scope_mode(&config), ScopeMode::Current);
    assert!(!is_repo_in_scope(&config, "/r"));
    assert_eq!(set_scope_mode_with_context(&mut config, ScopeMode::Selected, &nowhere), Ok(()));
    assert_eq!(get_selected_repos(&config), Vec::<String>::new());
    let bad = RepoContext { explicit: true, root: None };
    assert_eq!(
        set_scope_mode_with_context(&mut config, ScopeMode::Selected, &bad),
        Err(OnboardingError::NotARepository)
    );
}

#[test]
fn canonical_root_prefers_the_resolved_path() {
    assert_eq!(canonical_repo_root(Some("/a/../r"), Some("/r")), Ok("/r".to_string()));
    assert_eq!(canonical_repo_root(Some("/a/../r"), None), Ok("/a/../r".to_string()));
    assert_eq!(canonical_repo_root(None, Some("/r")), Err(OnboardingError::NotARepository));
    assert_eq!(OnboardingError::InvalidEmail.message(), "invalid email");
}
