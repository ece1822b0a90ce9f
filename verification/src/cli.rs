//! The command line: its grammar, handed to `clap`, and the command that a
//! parsed line stands for.

use vstd::prelude::*;
use crate::text::str_eq;

verus! {

/// `clap::Command`, of which nothing is known here.
#[verifier::external_type_specification]
#[verifier::external_body]
pub struct ExClapCommand(clap::Command);

/// `clap::ArgMatches`, of which nothing is known here.
#[verifier::external_type_specification]
#[verifier::external_body]
pub struct ExClapMatches(clap::ArgMatches);

/// Whether an option takes a value or is a switch.
#[derive(Debug, Clone, Copy, PartialEq, Eq, Structural)]
pub enum ArgKind {
    Value,
    Flag,
}

/// One option of a command, written `--<id>` on the command line.
pub struct ArgSpec {
    pub id: &'static str,
    pub kind: ArgKind,
    /// The value of the option where the line does not give one.
    pub default: Option<&'static str>,
}

pub struct ArgSpecView {
    pub id: Seq<char>,
    pub kind: ArgKind,
    pub default: Option<Seq<char>>,
}

impl DeepView for ArgSpec {
    type V = ArgSpecView;

    open spec fn deep_view(&self) -> ArgSpecView {
        ArgSpecView {
            id: self.id@,
            kind: self.kind,
            default: match self.default {
                Some(d) => Some(d@),
                None => None,
            },
        }
    }
}

/// A command with its options and subcommands.
pub struct CommandSpec {
    pub name: &'static str,
    pub args: Vec<ArgSpec>,
    pub subcommands: Vec<CommandSpec>,
    /// Whether a line without a subcommand is refused.
    pub subcommand_required: bool,
}

pub struct CommandSpecView {
    pub name: Seq<char>,
    pub args: Seq<ArgSpecView>,
    pub subcommands: Seq<CommandSpecView>,
    pub subcommand_required: bool,
}

/// The grammar that a command with its subcommands stands for.
pub open spec fn command_view(spec: CommandSpec) -> CommandSpecView
    decreases spec,
{
    CommandSpecView {
        name: spec.name@,
        args: spec.args.deep_view(),
        subcommands: Seq::new(
            spec.subcommands@.len(),
            |i: int|
                if 0 <= i < spec.subcommands@.len() {
                    command_view(spec.subcommands@[i])
                } else {
                    arbitrary()
                },
        ),
        subcommand_required: spec.subcommand_required,
    }
}

/// A name that `clap` takes for an option or a subcommand of its own
/// making: not empty, not beginning with a dash, and neither `help` nor
/// `version`, which `clap` adds itself.
pub open spec fn usable_name(name: Seq<char>) -> bool {
    name.len() > 0 && name[0] != '-' && name != "help"@ && name != "version"@
}

/// An option that `clap` takes: its id is usable, and a switch has no
/// default value.
pub open spec fn option_well_formed(arg: ArgSpecView) -> bool {
    usable_name(arg.id) && (arg.kind == ArgKind::Flag ==> arg.default is None)
}

/// One command by itself, without a look into its subcommands: its
/// options are well formed and no two share an id, no two subcommands
/// share a name, and a subcommand is required only where there is one.
pub open spec fn level_well_formed(grammar: CommandSpecView) -> bool {
    &&& usable_name(grammar.name)
    &&& forall|i: int| 0 <= i < grammar.args.len() ==> option_well_formed(#[trigger] grammar.args[i])
    &&& forall|i: int, j: int|
        0 <= i < j < grammar.args.len() ==> (#[trigger] grammar.args[i]).id != (
        #[trigger] grammar.args[j]).id
    &&& forall|i: int, j: int|
        0 <= i < j < grammar.subcommands.len() ==> (#[trigger] grammar.subcommands[i]).name != (
        #[trigger] grammar.subcommands[j]).name
    &&& grammar.subcommand_required ==> grammar.subcommands.len() > 0
}

/// A grammar on which `clap` does not stop with a failed assertion: every
/// command in it is well formed by itself.
pub open spec fn well_formed(grammar: CommandSpecView) -> bool
    decreases grammar,
{
    &&& level_well_formed(grammar)
    &&& forall|i: int|
        0 <= i < grammar.subcommands.len() ==> well_formed(#[trigger] grammar.subcommands[i])
}

/// What was matched at one level of a command line: the subcommand chosen
/// there, the values of the options that have one, and the switches.
pub struct LevelView {
    pub chosen: Option<Seq<char>>,
    pub values: Map<Seq<char>, Seq<char>>,
    pub flags: Map<Seq<char>, bool>,
}

/// The grammar that a `clap::Command` was built from.
pub uninterp spec fn made_from(command: clap::Command) -> CommandSpecView;

/// What a `clap::ArgMatches` holds, level by level from the top: its own
/// level first, then the levels of the subcommand that was chosen.
pub uninterp spec fn levels_in(matches: clap::ArgMatches) -> Seq<LevelView>;

/// What `clap` makes of a command line under a grammar: the levels of
/// what it matched, or `None` where it refuses the line.
pub uninterp spec fn answer(grammar: CommandSpecView, args: Seq<Seq<char>>) -> Option<
    Seq<LevelView>,
>;

/// Builds the `clap::Command` that a grammar describes, with
/// `Command::new`, `Command::subcommand_required`, `Command::arg` and
/// `Command::subcommand`; each option with `Arg::new`, `Arg::long`,
/// `Arg::action` and `Arg::default_value`. The contract says that the
/// command holds this grammar, and nothing else.
#[verifier::external_body]
fn build_command(spec: &CommandSpec) -> (r: clap::Command)
    requires
        well_formed(command_view(*spec)),
    ensures
        made_from(r) == command_view(*spec),
{
    let mut command = clap::Command::new(spec.name).subcommand_required(spec.subcommand_required);
    for a in &spec.args {
        let arg = clap::Arg::new(a.id).long(a.id).action(
            match a.kind {
                ArgKind::Value => clap::ArgAction::Set,
                ArgKind::Flag => clap::ArgAction::SetTrue,
            },
        );
        command = command.arg(match a.default { Some(d) => arg.default_value(d), None => arg });
    }
    for s in &spec.subcommands {
        command = command.subcommand(build_command(s));
    }
    command
}

/// Calls `Command::try_get_matches_from`. The error, where there is one,
/// comes back as the text that `clap` renders for it. With debug
/// assertions `clap` panics, when it parses, on a command with two options
/// of one id or two subcommands of one name, on a long name that begins
/// with a dash, and on a default value that the option cannot hold: the
/// grammar of the command must be well formed. The contract names what
/// `clap` matched under the grammar of the command. It says nothing of
/// the text of a refusal: the help text among these is laid out by the
/// width of the terminal, which `clap` takes from the environment.
#[verifier::external_body]
fn match_arguments(command: clap::Command, args: &Vec<String>) -> (r: Result<
    clap::ArgMatches,
    String,
>)
    requires
        well_formed(made_from(command)),
    ensures
        match r {
            Ok(matches) => answer(made_from(command), args.deep_view()) == Some(
                levels_in(matches),
            ),
            Err(_) => answer(made_from(command), args.deep_view()) is None,
        },
{
    command.try_get_matches_from(args.iter()).map_err(|e| e.to_string())
}

/// Calls `ArgMatches::subcommand`: the name of the subcommand that was
/// chosen, and what was matched below it. The levels below the first are
/// the levels of what was matched for the subcommand.
#[verifier::external_body]
fn selected_subcommand(matches: &clap::ArgMatches) -> (r: Option<(String, clap::ArgMatches)>)
    ensures
        match r {
            Some((name, sub)) => levels_in(*matches).len() == levels_in(sub).len() + 1
                && levels_in(*matches)[0].chosen == Some(name@) && levels_in(*matches).skip(1)
                == levels_in(sub),
            None => levels_in(*matches).len() == 1 && levels_in(*matches)[0].chosen is None,
        },
{
    matches.subcommand().map(|(name, sub)| (name.to_owned(), sub.clone()))
}

/// The value of an option at one level, if it has one.
pub open spec fn value_in(level: LevelView, id: Seq<char>) -> Option<Seq<char>> {
    if level.values.contains_key(id) {
        Some(level.values[id])
    } else {
        None
    }
}

/// Whether a switch is set at one level, if the level knows it.
pub open spec fn flag_in(level: LevelView, id: Seq<char>) -> Option<bool> {
    if level.flags.contains_key(id) {
        Some(level.flags[id])
    } else {
        None
    }
}

/// Calls `ArgMatches::try_get_one` for a `String`: the value of an option
/// at the first level; none where the option has no value or is not
/// known.
#[verifier::external_body]
fn argument_value(matches: &clap::ArgMatches, id: &str) -> (r: Option<String>)
    ensures
        r.deep_view() == value_in(levels_in(*matches)[0], id@),
{
    matches.try_get_one::<String>(id).ok().flatten().cloned()
}

/// Calls `ArgMatches::try_get_one` for a `bool`: whether a switch is set
/// at the first level; none where the switch is not known.
#[verifier::external_body]
fn argument_flag(matches: &clap::ArgMatches, id: &str) -> (r: Option<bool>)
    ensures
        r == flag_in(levels_in(*matches)[0], id@),
{
    matches.try_get_one::<bool>(id).ok().flatten().copied()
}

/// The entry points below `hook`.
#[derive(Debug, Clone, Copy, PartialEq, Eq, Structural)]
pub enum HookCommand {
    /// After a commit: try to attach the session to the head commit.
    PostCommit,
}

/// What the user asks for.
#[derive(Debug, PartialEq, Eq)]
pub enum CliCommand {
    /// Set the tool up.
    Install { org: Option<String> },
    /// One of the hook entry points.
    Hook { hook_command: HookCommand },
    /// Attach sessions to the commits of the recent past.
    Hydrate { since: String, push: bool },
    /// Try the pending commits again.
    Retry,
    /// Show the state of the tool in this repository.
    Status,
}

pub enum CommandView {
    Install { org: Option<Seq<char>> },
    Hook { hook_command: HookCommand },
    Hydrate { since: Seq<char>, push: bool },
    Retry,
    Status,
}

impl DeepView for CliCommand {
    type V = CommandView;

    open spec fn deep_view(&self) -> CommandView {
        match self {
            CliCommand::Install { org } => CommandView::Install { org: org.deep_view() },
            CliCommand::Hook { hook_command } => CommandView::Hook { hook_command: *hook_command },
            CliCommand::Hydrate { since, push } => CommandView::Hydrate { since: since@, push: *push },
            CliCommand::Retry => CommandView::Retry,
            CliCommand::Status => CommandView::Status,
        }
    }
}

/// A parsed command line.
#[derive(Debug, PartialEq, Eq)]
pub struct Cli {
    pub command: CliCommand,
}

/// Why a command line was refused.
#[derive(Debug, PartialEq, Eq)]
pub enum CliError {
    /// The line does not follow the grammar; the text says why, or is the
    /// help or version text that was asked for.
    Usage(String),
    /// The line names no command that is known.
    UnknownCommand,
}

/// The two ways in which a command line is refused.
#[derive(Debug, Clone, Copy, PartialEq, Eq, Structural)]
pub enum Refusal {
    /// `clap` refused the line.
    Usage,
    /// The line names no command that is known.
    UnknownCommand,
}

/// The way in which an error refuses a line.
pub open spec fn refusal_of(error: CliError) -> Refusal {
    match error {
        CliError::Usage(_) => Refusal::Usage,
        CliError::UnknownCommand => Refusal::UnknownCommand,
    }
}

/// What was read from a matched command line.
#[derive(Debug, PartialEq, Eq)]
pub struct Selection {
    /// The subcommand given.
    pub name: String,
    /// The subcommand given below it, if any.
    pub nested: Option<String>,
    pub org: Option<String>,
    pub since: Option<String>,
    pub push: Option<bool>,
}

pub struct SelectionView {
    pub name: Seq<char>,
    pub nested: Option<Seq<char>>,
    pub org: Option<Seq<char>>,
    pub since: Option<Seq<char>>,
    pub push: Option<bool>,
}

impl DeepView for Selection {
    type V = SelectionView;

    open spec fn deep_view(&self) -> SelectionView {
        SelectionView {
            name: self.name@,
            nested: self.nested.deep_view(),
            org: self.org.deep_view(),
            since: self.since.deep_view(),
            push: self.push,
        }
    }
}

/// How far back `hydrate` looks where the line does not say.
pub const DEFAULT_SINCE: &'static str = "7d";

/// The command that a selection stands for, if it stands for one.
pub open spec fn selected_command(selection: SelectionView) -> Option<CommandView> {
    if selection.name == "install"@ {
        Some(CommandView::Install { org: selection.org })
    } else if selection.name == "hook"@ {
        if selection.nested == Some("post-commit"@) {
            Some(CommandView::Hook { hook_command: HookCommand::PostCommit })
        } else {
            None
        }
    } else if selection.name == "hydrate"@ {
        Some(
            CommandView::Hydrate {
                since: match selection.since {
                    Some(since) => since,
                    None => DEFAULT_SINCE@,
                },
                push: selection.push == Some(true),
            },
        )
    } else if selection.name == "retry"@ {
        Some(CommandView::Retry)
    } else if selection.name == "status"@ {
        Some(CommandView::Status)
    } else {
        None
    }
}

/// Turns what was read from a command line into a command.
pub fn command_from(selection: Selection) -> (r: Result<CliCommand, CliError>)
    ensures
        match selected_command(selection.deep_view()) {
            Some(command) => r matches Ok(got) && got.deep_view() == command,
            None => r matches Err(CliError::UnknownCommand),
        },
{
    let name = selection.name.as_str();
    if str_eq(name, "install") {
        Ok(CliCommand::Install { org: selection.org })
    } else if str_eq(name, "hook") {
        match &selection.nested {
            Some(nested) => if str_eq(nested.as_str(), "post-commit") {
                Ok(CliCommand::Hook { hook_command: HookCommand::PostCommit })
            } else {
                Err(CliError::UnknownCommand)
            },
            None => Err(CliError::UnknownCommand),
        }
    } else if str_eq(name, "hydrate") {
        let since = match selection.since {
            Some(since) => since,
            None => DEFAULT_SINCE.to_owned(),
        };
        let push = match selection.push {
            Some(true) => true,
            _ => false,
        };
        Ok(CliCommand::Hydrate { since, push })
    } else if str_eq(name, "retry") {
        Ok(CliCommand::Retry)
    } else if str_eq(name, "status") {
        Ok(CliCommand::Status)
    } else {
        Err(CliError::UnknownCommand)
    }
}

/// A command without options or subcommands.
pub open spec fn plain_command(name: Seq<char>) -> CommandSpecView {
    CommandSpecView {
        name,
        args: Seq::empty(),
        subcommands: Seq::empty(),
        subcommand_required: false,
    }
}

/// The grammar of the command line: `install [--org <ORG>]`,
/// `hook post-commit`, `hydrate [--since <SINCE>] [--push]`, `retry` and
/// `status`. A subcommand is required, at the top and below `hook`.
pub open spec fn cli_grammar() -> CommandSpecView {
    CommandSpecView {
        name: "ai-barometer"@,
        args: Seq::empty(),
        subcommands: seq![
            CommandSpecView {
                args: seq![ArgSpecView { id: "org"@, kind: ArgKind::Value, default: None }],
                ..plain_command("install"@)
            },
            CommandSpecView {
                subcommands: seq![plain_command("post-commit"@)],
                subcommand_required: true,
                ..plain_command("hook"@)
            },
            CommandSpecView {
                args: seq![
                    ArgSpecView {
                        id: "since"@,
                        kind: ArgKind::Value,
                        default: Some(DEFAULT_SINCE@),
                    },
                    ArgSpecView { id: "push"@, kind: ArgKind::Flag, default: None },
                ],
                ..plain_command("hydrate"@)
            },
            plain_command("retry"@),
            plain_command("status"@),
        ],
        subcommand_required: true,
    }
}

/// The grammar of the command line is one that `clap` takes.
pub proof fn lemma_cli_grammar_is_well_formed()
    ensures
        well_formed(cli_grammar()),
{
    reveal_strlit("ai-barometer");
    reveal_strlit("install");
    reveal_strlit("hook");
    reveal_strlit("post-commit");
    reveal_strlit("hydrate");
    reveal_strlit("retry");
    reveal_strlit("status");
    reveal_strlit("org");
    reveal_strlit("since");
    reveal_strlit("push");
    reveal_strlit("help");
    reveal_strlit("version");
    let subs = cli_grammar().subcommands;
    assert(subs[0].name[0] == 'i' && subs[2].name[1] == 'y' && subs[1].name[1] == 'o');
    assert(subs[2].args[0].id.len() == 5 && subs[2].args[1].id.len() == 4);
    assert(subs[2].args[1].id[0] == 'p');
    assert("help"@[0] == 'h' && "help"@[1] == 'e' && "version"@[0] == 'v');
    assert(well_formed(subs[1].subcommands[0]));
    assert(well_formed(subs[0]));
    assert(well_formed(subs[1]));
    assert(well_formed(subs[2]));
    assert(well_formed(subs[3]));
    assert(well_formed(subs[4]));
    assert(level_well_formed(cli_grammar()));
}

fn plain(name: &'static str) -> (r: CommandSpec)
    ensures
        command_view(r) == plain_command(name@),
        r.name == name,
        r.args@.len() == 0,
        r.subcommands@.len() == 0,
        !r.subcommand_required,
{
    let r = CommandSpec {
        name,
        args: Vec::new(),
        subcommands: Vec::new(),
        subcommand_required: false,
    };
    proof {
        assert(command_view(r).args =~= Seq::<ArgSpecView>::empty());
        assert(command_view(r).subcommands =~= Seq::<CommandSpecView>::empty());
    }
    r
}

/// The grammar of the command line, as it is handed to `clap`.
pub fn grammar() -> (r: CommandSpec)
    ensures
        command_view(r) == cli_grammar(),
{
    let mut install = plain("install");
    install.args.push(ArgSpec { id: "org", kind: ArgKind::Value, default: None });
    let mut hook = plain("hook");
    hook.subcommand_required = true;
    hook.subcommands.push(plain("post-commit"));
    let mut hydrate = plain("hydrate");
    hydrate.args.push(ArgSpec { id: "since", kind: ArgKind::Value, default: Some(DEFAULT_SINCE) });
    hydrate.args.push(ArgSpec { id: "push", kind: ArgKind::Flag, default: None });
    let retry = plain("retry");
    let status = plain("status");
    proof {
        let expected = cli_grammar().subcommands;
        assert(command_view(install).args =~= expected[0].args);
        assert(command_view(install).subcommands =~= expected[0].subcommands);
        assert(command_view(install) == expected[0]);
        assert(command_view(hook).args =~= expected[1].args);
        assert(command_view(hook).subcommands =~= expected[1].subcommands);
        assert(command_view(hook) == expected[1]);
        assert(command_view(hydrate).args =~= expected[2].args);
        assert(command_view(hydrate).subcommands =~= expected[2].subcommands);
        assert(command_view(hydrate) == expected[2]);
    }
    let mut root = plain("ai-barometer");
    root.subcommand_required = true;
    root.subcommands.push(install);
    root.subcommands.push(hook);
    root.subcommands.push(hydrate);
    root.subcommands.push(retry);
    root.subcommands.push(status);
    proof {
        assert(command_view(root).args =~= cli_grammar().args);
        assert(command_view(root).subcommands =~= cli_grammar().subcommands);
    }
    root
}

/// What was read from the levels that `clap` matched: the subcommand
/// chosen at the top, the one chosen below it, and the options given to
/// the first. Nothing was read where no subcommand was chosen.
pub open spec fn selection_in(levels: Seq<LevelView>) -> Option<SelectionView> {
    if levels.len() < 2 || levels[0].chosen is None {
        None
    } else {
        Some(
            SelectionView {
                name: levels[0].chosen.unwrap(),
                nested: levels[1].chosen,
                org: value_in(levels[1], "org"@),
                since: value_in(levels[1], "since"@),
                push: flag_in(levels[1], "push"@),
            },
        )
    }
}

/// The command that an answer of `clap` stands for.
pub open spec fn answered_command(reply: Option<Seq<LevelView>>) -> Result<CommandView, Refusal> {
    match reply {
        None => Err(Refusal::Usage),
        Some(levels) => match selection_in(levels) {
            None => Err(Refusal::UnknownCommand),
            Some(selection) => match selected_command(selection) {
                Some(command) => Ok(command),
                None => Err(Refusal::UnknownCommand),
            },
        },
    }
}

impl Cli {
    /// Parses a command line, the name of the program first: the line is
    /// handed to `clap` with the grammar of the command line, and what
    /// `clap` matched is turned into a command. Where `clap` refuses the
    /// line, the error holds the text that `clap` renders.
    pub fn try_parse_from(args: Vec<String>) -> (r: Result<Cli, CliError>)
        ensures
            match answered_command(answer(cli_grammar(), args.deep_view())) {
                Ok(command) => r matches Ok(cli) && cli.command.deep_view() == command,
                Err(refusal) => r matches Err(error) && refusal_of(error) == refusal,
            },
    {
        proof {
            lemma_cli_grammar_is_well_formed();
        }
        let matches = match match_arguments(build_command(&grammar()), &args) {
            Ok(matches) => matches,
            Err(text) => {
                return Err(CliError::Usage(text));
            },
        };
        let (name, sub) = match selected_subcommand(&matches) {
            Some(selected) => selected,
            None => {
                return Err(CliError::UnknownCommand);
            },
        };
        let nested = match selected_subcommand(&sub) {
            Some((nested, _)) => Some(nested),
            None => None,
        };
        proof {
            assert(levels_in(matches).skip(1)[0] == levels_in(matches)[1]);
        }
        let selection = Selection {
            name,
            nested,
            org: argument_value(&sub, "org"),
            since: argument_value(&sub, "since"),
            push: argument_flag(&sub, "push"),
        };
        match command_from(selection) {
            Ok(command) => Ok(Cli { command }),
            Err(e) => Err(e),
        }
    }
}

} // verus!
