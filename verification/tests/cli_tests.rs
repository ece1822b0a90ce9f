use ai_barometer::cli::{command_from, grammar, Cli, CliCommand, CliError, HookCommand, Selection};

fn line(words: &[&str]) -> Vec<String> {
    words.iter().map(|w| w.to_string()).collect()
}

#[test]
fn cli_parses_install() {
    let cli = Cli::try_parse_from(line(&["ai-barometer", "install"])).unwrap();
    assert!(matches!(cli.command, CliCommand::Install { org: None }));
}

#[test]
fn cli_parses_install_with_org() {
    let cli = Cli::try_parse_from(line(&["ai-barometer", "install", "--org", "my-org"])).unwrap();
    match cli.command {
        CliCommand::Install { org } => assert_eq!(org.as_deref(), Some("my-org")),
        _ => panic!("expected Install command"),
    }
}

#[test]
fn cli_parses_hook_post_commit() {
    let cli = Cli::try_parse_from(line(&["ai-barometer", "hook", "post-commit"])).unwrap();
    assert!(matches!(
        cli.command,
        CliCommand::Hook {
            hook_command: HookCommand::PostCommit
        }
    ));
}

#[test]
fn cli_parses_hydrate_defaults() {
    let cli = Cli::try_parse_from(line(&["ai-barometer", "hydrate"])).unwrap();
    match cli.command {
        CliCommand::Hydrate { since, push } => {
            assert_eq!(since, "7d");
            assert!(!push);
        }
        _ => panic!("expected Hydrate command"),
    }
}

#[test]
fn cli_parses_hydrate_with_flags() {
    let cli =
        Cli::try_parse_from(line(&["ai-barometer", "hydrate", "--since", "30d", "--push"])).unwrap();
    match cli.command {
        CliCommand::Hydrate { since, push } => {
            assert_eq!(since, "30d");
            assert!(push);
        }
        _ => panic!("expected Hydrate command"),
    }
}

#[test]
fn cli_parses_retry() {
    let cli = Cli::try_parse_from(line(&["ai-barometer", "retry"])).unwrap();
    assert!(matches!(cli.command, CliCommand::Retry));
}

#[test]
fn cli_parses_status() {
    let cli = Cli::try_parse_from(line(&["ai-barometer", "status"])).unwrap();
    assert!(matches!(cli.command, CliCommand::Status));
}

#[test]
fn cli_rejects_unknown_subcommand() {
    let result = Cli::try_parse_from(line(&["ai-barometer", "frobnicate"]));
    assert!(result.is_err());
}

#[test]
fn cli_rejects_hook_without_sub_subcommand() {
    let result = Cli::try_parse_from(line(&["ai-barometer", "hook"]));
    assert!(result.is_err());
}

#[test]
fn cli_rejects_hydrate_since_missing_value() {
    let result = Cli::try_parse_from(line(&["ai-barometer", "hydrate", "--since"]));
    assert!(result.is_err());
}

#[test]
fn cli_rejects_no_subcommand() {
    let result = Cli::try_parse_from(line(&["ai-barometer"]));
    assert!(result.is_err());
}

#[test]
fn cli_rejects_unknown_option() {
    let result = Cli::try_parse_from(line(&["ai-barometer", "retry", "--push"]));
    assert!(matches!(result, Err(CliError::Usage(_))));
    let result = Cli::try_parse_from(line(&["ai-barometer", "install", "--org"]));
    assert!(matches!(result, Err(CliError::Usage(_))));
}

#[test]
fn cli_takes_option_with_equals_sign() {
    let cli = Cli::try_parse_from(line(&["ai-barometer", "hydrate", "--since=2d"])).unwrap();
    assert_eq!(
        cli.command,
        CliCommand::Hydrate {
            since: "2d".to_string(),
            push: false
        }
    );
}

fn selection(name: &str) -> Selection {
    Selection {
        name: name.to_string(),
        nested: None,
        org: None,
        since: None,
        push: None,
    }
}

#[test]
fn selection_names_the_command() {
    assert_eq!(command_from(selection("retry")), Ok(CliCommand::Retry));
    assert_eq!(command_from(selection("status")), Ok(CliCommand::Status));
    assert_eq!(command_from(selection("install")), Ok(CliCommand::Install { org: None }));
    assert_eq!(
        command_from(selection("hydrate")),
        Ok(CliCommand::Hydrate {
            since: "7d".to_string(),
            push: false
        })
    );
    let mut hydrate = selection("hydrate");
    hydrate.since = Some("1d".to_string());
    hydrate.push = Some(true);
    assert_eq!(
        command_from(hydrate),
        Ok(CliCommand::Hydrate {
            since: "1d".to_string(),
            push: true
        })
    );
    let mut hook = selection("hook");
    hook.nested = Some("post-commit".to_string());
    assert_eq!(
        command_from(hook),
        Ok(CliCommand::Hook {
            hook_command: HookCommand::PostCommit
        })
    );
}

#[test]
fn selection_of_nothing_known_is_an_error() {
    assert_eq!(command_from(selection("hook")), Err(CliError::UnknownCommand));
    assert_eq!(command_from(selection("frobnicate")), Err(CliError::UnknownCommand));
    let mut hook = selection("hook");
    hook.nested = Some("pre-commit".to_string());
    assert_eq!(command_from(hook), Err(CliError::UnknownCommand));
}

#[test]
fn grammar_lists_the_commands() {
    let g = grammar();
    assert_eq!(g.name, "ai-barometer");
    assert!(g.subcommand_required);
    let names: Vec<&str> = g.subcommands.iter().map(|c| c.name).collect();
    assert_eq!(names, vec!["install", "hook", "hydrate", "retry", "status"]);
    assert_eq!(g.subcommands[2].args[0].default, Some("7d"));
}
