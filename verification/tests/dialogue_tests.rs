use ai_barometer::config::{Config, Scope};
use ai_barometer::dialogue::{
    ensure_email_on_install, ensure_scope_on_install, read_yes_no, run_install_onboarding,
    run_onboarding, DialogueError, Reply, Request,
};
use ai_barometer::onboarding::{get_email, get_scope_mode, get_selected_repos, ScopeMode};

fn tagged(text: &str) -> String {
    format!("[ai-session-commit-linker] {}", text)
}

fn ask(prompt: &str) -> Request {
    Request::Ask { prompt: prompt.to_string() }
}

fn line(text: &str) -> Reply {
    Reply::Line(text.to_string())
}

#[test]
fn yes_and_no() {
    assert!(read_yes_no("y", false));
    assert!(read_yes_no(" YES \n", false));
    assert!(!read_yes_no("n", true));
    assert!(!read_yes_no("yep", true));
    assert!(read_yes_no("", true));
    assert!(!read_yes_no("  \n", false));
}

#[test]
fn install_without_terminal_asks_nothing() {
    let mut config = Config::new();
    let (dialogue, turn) = run_install_onboarding(&mut config, false, false);
    assert!(dialogue.is_done());
    assert_eq!(turn.request, Request::Finish(Ok(())));
    assert_eq!(
        turn.log,
        vec![
            tagged("Onboarding: no TTY; skip email prompt (run `ai-session-commit-linker onboard --email <you@example.com>` later)"),
            tagged("Scope: no TTY; defaulting to all repos (manage later with `ai-session-commit-linker scope ...`)"),
        ]
    );
    assert_eq!(get_email(&config), None);
    assert_eq!(
        config.get(Scope::Global, "ai.session-commit-linker.scope"),
        Some("all".to_string())
    );
}

#[test]
fn install_uses_what_is_on_record() {
    let mut config = Config::new();
    config.set(Scope::Global, "ai.session-commit-linker.email", "me@example.com");
    config.set(Scope::Global, "ai.session-commit-linker.scope", "Selected");
    let (_, turn) = run_install_onboarding(&mut config, false, true);
    assert_eq!(turn.request, Request::Finish(Ok(())));
    assert_eq!(
        turn.log,
        vec![
            tagged("Onboarding: using existing email me@example.com"),
            tagged("Scope: using existing mode selected"),
        ]
    );
    assert_eq!(config.entries.len(), 2);
}

#[test]
fn forced_install_asks_even_with_answers_on_record() {
    let mut config = Config::new();
    config.set(Scope::Global, "ai.session-commit-linker.email", "me@example.com");
    config.set(Scope::Global, "ai.session-commit-linker.scope", "selected");
    let (mut dialogue, turn) = run_install_onboarding(&mut config, true, true);
    assert_eq!(turn.request, ask(""));
    assert_eq!(
        turn.log,
        vec![tagged("Onboarding: enter your email for session attribution (blank to skip)")]
    );
    let turn = dialogue.answer(&mut config, line("\n"));
    assert_eq!(turn.request, ask("Run in all repos? [y/N]: "));
    assert_eq!(turn.log, vec![tagged("Onboarding skipped."), tagged("Scope setup:")]);
    let turn = dialogue.answer(&mut config, line("y\n"));
    assert_eq!(turn.request, Request::Finish(Ok(())));
    assert_eq!(turn.log, vec![tagged("Scope set: all repos")]);
    assert_eq!(get_scope_mode(&config), ScopeMode::All);
    assert_eq!(get_email(&config), Some("me@example.com".to_string()));
}

#[test]
fn install_collects_selected_repositories() {
    let mut config = Config::new();
    let (mut dialogue, turn) = run_install_onboarding(&mut config, false, true);
    assert_eq!(turn.request, ask(""));
    let turn = dialogue.answer(&mut config, line(" Me@Example.com \n"));
    assert_eq!(
        turn.log,
        vec![tagged("Onboarding complete: me@example.com"), tagged("Scope setup:")]
    );
    assert_eq!(turn.request, ask("Run in all repos? [y/N]: "));
    let turn = dialogue.answer(&mut config, line("\n"));
    assert_eq!(turn.request, ask("Use selected repos allowlist? [y/N]: "));
    assert!(turn.log.is_empty());
    let turn = dialogue.answer(&mut config, line("yes\n"));
    assert_eq!(turn.request, Request::ResolveCurrent);
    assert_eq!(get_scope_mode(&config), ScopeMode::Selected);
    let turn = dialogue.answer(&mut config, Reply::Repo("/r/here".to_string()));
    assert_eq!(turn.request, ask(""));
    assert_eq!(turn.log, vec![tagged("Add current repo to selected list? /r/here [Y/n]")]);
    let turn = dialogue.answer(&mut config, line("Y\n"));
    assert_eq!(turn.request, ask("Add repo path (blank to finish): "));
    let turn = dialogue.answer(&mut config, line(" ../other \n"));
    assert_eq!(turn.request, Request::Resolve { path: "../other".to_string() });
    let turn = dialogue.answer(&mut config, Reply::Repo("/r/other".to_string()));
    assert_eq!(turn.log, vec![tagged("Added /r/other")]);
    assert_eq!(turn.request, ask("Add repo path (blank to finish): "));
    let turn = dialogue.answer(&mut config, line("/tmp\n"));
    assert_eq!(turn.request, Request::Resolve { path: "/tmp".to_string() });
    let turn = dialogue.answer(&mut config, Reply::NoRepo("not a git repository".to_string()));
    assert_eq!(
        turn.log,
        vec![tagged("warning: /tmp is not a git repo: not a git repository")]
    );
    let turn = dialogue.answer(&mut config, line("/r/here\n"));
    assert_eq!(turn.request, Request::Resolve { path: "/r/here".to_string() });
    let turn = dialogue.answer(&mut config, Reply::Repo("/r/here".to_string()));
    assert_eq!(turn.log, vec![tagged("Added /r/here")]);
    let turn = dialogue.answer(&mut config, line("\n"));
    assert_eq!(turn.request, Request::Finish(Ok(())));
    assert_eq!(turn.log, vec![tagged("Scope set: selected repos")]);
    assert!(dialogue.is_done());
    assert_eq!(
        get_selected_repos(&config),
        vec!["/r/here".to_string(), "/r/other".to_string()]
    );
}

#[test]
fn current_repository_may_be_declined() {
    let mut config = Config::new();
    config.set(Scope::Global, "ai.session-commit-linker.scope.selected", "[\"/old\"]");
    let (mut dialogue, turn) = ensure_scope_on_install(&mut config, false, true);
    assert_eq!(turn.log, vec![tagged("Scope setup:")]);
    dialogue.answer(&mut config, line("no"));
    dialogue.answer(&mut config, line("y"));
    dialogue.answer(&mut config, Reply::Repo("/r/here".to_string()));
    let turn = dialogue.answer(&mut config, line("n"));
    assert_eq!(turn.request, ask("Add repo path (blank to finish): "));
    let turn = dialogue.answer(&mut config, line(""));
    assert_eq!(turn.request, Request::Finish(Ok(())));
    assert_eq!(get_selected_repos(&config), vec!["/old".to_string()]);
}

#[test]
fn outside_a_repository_the_list_starts_with_paths() {
    let mut config = Config::new();
    let (mut dialogue, _) = ensure_scope_on_install(&mut config, false, true);
    dialogue.answer(&mut config, line("n"));
    dialogue.answer(&mut config, line("y"));
    let turn = dialogue.answer(&mut config, Reply::NoRepo("nowhere".to_string()));
    assert_eq!(turn.request, ask("Add repo path (blank to finish): "));
    assert!(turn.log.is_empty());
}

#[test]
fn scope_falls_to_the_current_repository() {
    let mut config = Config::new();
    let (mut dialogue, _) = ensure_scope_on_install(&mut config, false, true);
    dialogue.answer(&mut config, line("n"));
    let turn = dialogue.answer(&mut config, line("n"));
    assert_eq!(turn.request, Request::ResolveCurrent);
    assert_eq!(get_scope_mode(&config), ScopeMode::Current);
    let turn = dialogue.answer(&mut config, Reply::Repo("/r/here".to_string()));
    assert_eq!(turn.request, Request::Finish(Ok(())));
    assert_eq!(turn.log, vec![tagged("Scope set: current repo")]);
    assert_eq!(
        config.get(Scope::Global, "ai.session-commit-linker.scope.current_repo"),
        Some("/r/here".to_string())
    );
}

#[test]
fn scope_falls_to_all_outside_a_repository() {
    let mut config = Config::new();
    let (mut dialogue, _) = ensure_scope_on_install(&mut config, false, true);
    dialogue.answer(&mut config, line("n"));
    dialogue.answer(&mut config, line("n"));
    let turn = dialogue.answer(&mut config, Reply::NoRepo("nowhere".to_string()));
    assert_eq!(turn.request, Request::Finish(Ok(())));
    assert_eq!(
        turn.log,
        vec![tagged("Scope set: all repos (not currently in a git repo)")]
    );
    assert_eq!(get_scope_mode(&config), ScopeMode::All);
}

#[test]
fn email_question_alone() {
    let mut config = Config::new();
    let (mut dialogue, turn) = ensure_email_on_install(&mut config, false, true);
    assert_eq!(turn.request, ask(""));
    let turn = dialogue.answer(&mut config, line("nobody\n"));
    assert_eq!(turn.request, Request::Finish(Err(DialogueError::InvalidEmail)));
    assert_eq!(get_email(&config), None);
    let (mut dialogue, _) = ensure_email_on_install(&mut config, false, true);
    let turn = dialogue.answer(&mut config, line("a@b.c"));
    assert_eq!(turn.request, Request::Finish(Ok(())));
    assert_eq!(turn.log, vec![tagged("Onboarding complete: a@b.c")]);
}

#[test]
fn failed_read_ends_the_dialogue() {
    let mut config = Config::new();
    let (mut dialogue, _) = ensure_email_on_install(&mut config, false, true);
    let turn = dialogue.answer(&mut config, Reply::ReadFailed("stream closed".to_string()));
    assert_eq!(
        turn.request,
        Request::Finish(Err(DialogueError::Read("stream closed".to_string())))
    );
    assert_eq!(DialogueError::Read("stream closed".to_string()).message(), "stream closed");
    let turn = dialogue.answer(&mut config, line("late"));
    assert_eq!(turn.request, Request::Finish(Err(DialogueError::Unexpected)));
}

#[test]
fn onboarding_command_with_and_without_email() {
    let mut config = Config::new();
    let (_, turn) = run_onboarding(&mut config, Some("Me@Example.com"), false);
    assert_eq!(turn.request, Request::Finish(Ok(())));
    assert_eq!(turn.log, vec![tagged("Saved onboarding email: me@example.com")]);
    let (_, turn) = run_onboarding(&mut config, Some("nobody"), true);
    assert_eq!(turn.request, Request::Finish(Err(DialogueError::InvalidEmail)));
    let (_, turn) = run_onboarding(&mut config, None, false);
    assert_eq!(turn.request, Request::Finish(Err(DialogueError::NonInteractive)));
    assert_eq!(
        DialogueError::NonInteractive.message(),
        "non-interactive mode requires --email"
    );
    let (mut dialogue, turn) = run_onboarding(&mut config, None, true);
    assert_eq!(turn.request, ask("Email: "));
    let turn = dialogue.answer(&mut config, line("  \n"));
    assert_eq!(turn.request, Request::Finish(Err(DialogueError::EmailRequired)));
    assert_eq!(DialogueError::EmailRequired.message(), "email is required");
    let (mut dialogue, _) = run_onboarding(&mut config, None, true);
    let turn = dialogue.answer(&mut config, line("x@y.z\n"));
    assert_eq!(turn.request, Request::Finish(Ok(())));
    assert_eq!(turn.log, vec![tagged("Saved onboarding email: x@y.z")]);
    assert_eq!(get_email(&config), Some("x@y.z".to_string()));
}
