//! The onboarding dialogue: which questions are asked at install time, and
//! what each answer changes.
//!
//! The dialogue decides; the caller prints, reads and looks repositories
//! up. Each turn hands out the lines to print on the error stream and the
//! next thing to do, and takes back what that brought.

use vstd::prelude::*;
use vstd::string::*;
use crate::config::{setting, settings_of, Config, ConfigEntryView, Scope};
use crate::onboarding::{
    assigned,
    email_of,
    get_email,
    get_selected_repos,
    normalize_email,
    normalized_email,
    parse_scope_mode,
    parsed_scope_mode,
    scope_name,
    selected_repos_of,
    set_scope_mode,
    with_repo,
    ScopeMode,
    EMAIL_CONFIG_KEY,
    SCOPE_CONFIG_KEY,
    SCOPE_CURRENT_REPO_KEY,
    SCOPE_SELECTED_REPOS_KEY,
};
use crate::json::{string_list_text, write_string_list};
use crate::text::{
    chars_eq,
    concat,
    eq_ignoring_ascii_case,
    from_chars,
    lowercase,
    str_eq,
    to_ascii_lowercase_chars,
    to_chars,
    trim_chars,
    trimmed,
};

verus! {

/// What the dialogue is waiting for.
#[derive(Debug, Clone, Copy, PartialEq, Eq, Structural)]
pub enum DialoguePhase {
    /// The answer to the question for the email address.
    EmailAnswer,
    /// The answer to "Run in all repos?".
    AllAnswer,
    /// The answer to "Use selected repos allowlist?".
    SelectedAnswer,
    /// The current repository, to offer it for the list.
    ListCurrent,
    /// The answer to "Add current repo to selected list?".
    ListCurrentAnswer,
    /// The next path for the list.
    ListPathAnswer,
    /// The repository at the path that was typed.
    ListPathResolution,
    /// The current repository, to put it on record.
    ModeCurrent,
    Done,
}

/// Why the dialogue broke off.
#[derive(Debug, PartialEq, Eq)]
pub enum DialogueError {
    InvalidEmail,
    EmailRequired,
    /// A question would have to be asked, and there is no terminal.
    NonInteractive,
    /// A line could not be read.
    Read(String),
    /// The caller brought back something that was not asked for.
    Unexpected,
}

pub enum DialogueErrorView {
    InvalidEmail,
    EmailRequired,
    NonInteractive,
    Read(Seq<char>),
    Unexpected,
}

impl DeepView for DialogueError {
    type V = DialogueErrorView;

    open spec fn deep_view(&self) -> DialogueErrorView {
        match self {
            DialogueError::InvalidEmail => DialogueErrorView::InvalidEmail,
            DialogueError::EmailRequired => DialogueErrorView::EmailRequired,
            DialogueError::NonInteractive => DialogueErrorView::NonInteractive,
            DialogueError::Read(m) => DialogueErrorView::Read(m@),
            DialogueError::Unexpected => DialogueErrorView::Unexpected,
        }
    }
}

pub open spec fn dialogue_error_message(error: DialogueErrorView) -> Seq<char> {
    match error {
        DialogueErrorView::InvalidEmail => "invalid email"@,
        DialogueErrorView::EmailRequired => "email is required"@,
        DialogueErrorView::NonInteractive => "non-interactive mode requires --email"@,
        DialogueErrorView::Read(m) => m,
        DialogueErrorView::Unexpected => "unexpected reply"@,
    }
}

impl DialogueError {
    pub fn message(&self) -> (r: String)
        ensures
            r@ == dialogue_error_message(self.deep_view()),
    {
        match self {
            DialogueError::InvalidEmail => "invalid email".to_owned(),
            DialogueError::EmailRequired => "email is required".to_owned(),
            DialogueError::NonInteractive => "non-interactive mode requires --email".to_owned(),
            DialogueError::Read(m) => m.clone(),
            DialogueError::Unexpected => "unexpected reply".to_owned(),
        }
    }
}

/// The state of a dialogue.
#[derive(Debug, PartialEq, Eq)]
pub struct Dialogue {
    pub phase: DialoguePhase,
    /// Whether the questions are asked even where an answer is on record.
    pub force: bool,
    /// Whether there is a terminal to ask on.
    pub terminal: bool,
    /// Whether the questions for the scope follow the one for the email.
    pub then_scope: bool,
    /// Whether an email address must be given.
    pub required: bool,
    /// The list of selected repositories, as far as it is collected.
    pub selected: Vec<String>,
    /// The repository or path that the last question was about.
    pub subject: String,
}

pub struct DialogueView {
    pub phase: DialoguePhase,
    pub force: bool,
    pub terminal: bool,
    pub then_scope: bool,
    pub required: bool,
    pub selected: Seq<Seq<char>>,
    pub subject: Seq<char>,
}

impl DeepView for Dialogue {
    type V = DialogueView;

    open spec fn deep_view(&self) -> DialogueView {
        DialogueView {
            phase: self.phase,
            force: self.force,
            terminal: self.terminal,
            then_scope: self.then_scope,
            required: self.required,
            selected: self.selected.deep_view(),
            subject: self.subject@,
        }
    }
}

/// What the caller brings back.
#[derive(Debug, PartialEq, Eq)]
pub enum Reply {
    /// The line that was typed.
    Line(String),
    /// No line could be read.
    ReadFailed(String),
    /// The root of the repository that was looked up.
    Repo(String),
    /// There is no repository where one was looked up; the text says why.
    NoRepo(String),
}

pub enum ReplyView {
    Line(Seq<char>),
    ReadFailed(Seq<char>),
    Repo(Seq<char>),
    NoRepo(Seq<char>),
}

impl DeepView for Reply {
    type V = ReplyView;

    open spec fn deep_view(&self) -> ReplyView {
        match self {
            Reply::Line(l) => ReplyView::Line(l@),
            Reply::ReadFailed(m) => ReplyView::ReadFailed(m@),
            Reply::Repo(r) => ReplyView::Repo(r@),
            Reply::NoRepo(m) => ReplyView::NoRepo(m@),
        }
    }
}

/// What the caller is to do next.
#[derive(Debug, PartialEq, Eq)]
pub enum Request {
    /// Print `prompt`, without a line end, and read a line.
    Ask { prompt: String },
    /// Look up the repository of the current directory.
    ResolveCurrent,
    /// Look up the repository at `path`.
    Resolve { path: String },
    /// The dialogue is over.
    Finish(Result<(), DialogueError>),
}

pub enum RequestView {
    Ask { prompt: Seq<char> },
    ResolveCurrent,
    Resolve { path: Seq<char> },
    Finish(Result<(), DialogueErrorView>),
}

impl DeepView for Request {
    type V = RequestView;

    open spec fn deep_view(&self) -> RequestView {
        match self {
            Request::Ask { prompt } => RequestView::Ask { prompt: prompt@ },
            Request::ResolveCurrent => RequestView::ResolveCurrent,
            Request::Resolve { path } => RequestView::Resolve { path: path@ },
            Request::Finish(Ok(_)) => RequestView::Finish(Ok(())),
            Request::Finish(Err(e)) => RequestView::Finish(Err(e.deep_view())),
        }
    }
}

/// One turn of the dialogue: the lines to print, then what to do.
#[derive(Debug, PartialEq, Eq)]
pub struct Turn {
    pub request: Request,
    pub log: Vec<String>,
}

/// One turn with what it leaves behind: the state, the assignments, the
/// request and the lines printed.
pub struct TurnView {
    pub state: DialogueView,
    /// Every assignment to the settings, oldest first.
    pub entries: Seq<ConfigEntryView>,
    pub request: RequestView,
    pub log: Seq<Seq<char>>,
}

pub open spec fn tagged(text: Seq<char>) -> Seq<char> {
    "[ai-session-commit-linker] "@ + text
}

pub open spec fn path_prompt() -> Seq<char> {
    "Add repo path (blank to finish): "@
}

/// Whether a line says yes: `y` or `yes` in any case; a blank line says
/// what the question has as its default.
pub open spec fn says_yes(line: Seq<char>, default_yes: bool) -> bool {
    let answer = lowercase(trimmed(line));
    if answer.len() == 0 {
        default_yes
    } else {
        answer == "y"@ || answer == "yes"@
    }
}

pub fn read_yes_no(line: &str, default_yes: bool) -> (r: bool)
    ensures
        r == says_yes(line@, default_yes),
{
    let answer = to_ascii_lowercase_chars(&trim_chars(&to_chars(line)));
    if answer.len() == 0 {
        default_yes
    } else {
        chars_eq(&answer, &to_chars("y")) || chars_eq(&answer, &to_chars("yes"))
    }
}

/// The dialogue ends.
pub open spec fn ended(
    s: DialogueView,
    entries: Seq<ConfigEntryView>,
    result: Result<(), DialogueErrorView>,
    log: Seq<Seq<char>>,
) -> TurnView {
    TurnView {
        state: DialogueView { phase: DialoguePhase::Done, ..s },
        entries,
        request: RequestView::Finish(result),
        log,
    }
}

/// A question is asked.
pub open spec fn asked(
    s: DialogueView,
    entries: Seq<ConfigEntryView>,
    phase: DialoguePhase,
    prompt: Seq<char>,
    log: Seq<Seq<char>>,
) -> TurnView {
    TurnView {
        state: DialogueView { phase, ..s },
        entries,
        request: RequestView::Ask { prompt },
        log,
    }
}

/// The part about the scope begins.
pub open spec fn scope_begun(s: DialogueView, entries: Seq<ConfigEntryView>, log: Seq<Seq<char>>) -> TurnView {
    let on_record = match setting(settings_of(entries), Scope::Global, SCOPE_CONFIG_KEY@) {
        Some(raw) => parsed_scope_mode(raw),
        None => None,
    };
    if !s.force && on_record is Some {
        ended(
            s,
            entries,
            Ok(()),
            log.push(tagged("Scope: using existing mode "@ + scope_name(on_record.unwrap()))),
        )
    } else if !s.terminal {
        ended(
            s,
            assigned(entries, SCOPE_CONFIG_KEY@, scope_name(ScopeMode::All)),
            Ok(()),
            log.push(
                tagged(
                    "Scope: no TTY; defaulting to all repos (manage later with `ai-session-commit-linker scope ...`)"@,
                ),
            ),
        )
    } else {
        asked(
            s,
            entries,
            DialoguePhase::AllAnswer,
            "Run in all repos? [y/N]: "@,
            log.push(tagged("Scope setup:"@)),
        )
    }
}

/// The part about the email address is over.
pub open spec fn email_settled(s: DialogueView, entries: Seq<ConfigEntryView>, log: Seq<Seq<char>>) -> TurnView {
    if s.then_scope {
        scope_begun(s, entries, log)
    } else {
        ended(s, entries, Ok(()), log)
    }
}

/// The part about the email address begins.
pub open spec fn email_begun(s: DialogueView, entries: Seq<ConfigEntryView>) -> TurnView {
    if !s.force && email_of(settings_of(entries)) is Some {
        email_settled(
            s,
            entries,
            seq![tagged("Onboarding: using existing email "@ + email_of(settings_of(entries)).unwrap())],
        )
    } else if !s.terminal {
        email_settled(
            s,
            entries,
            seq![
                tagged(
                    "Onboarding: no TTY; skip email prompt (run `ai-session-commit-linker onboard --email <you@example.com>` later)"@,
                ),
            ],
        )
    } else {
        asked(
            s,
            entries,
            DialoguePhase::EmailAnswer,
            Seq::empty(),
            seq![
                tagged(
                    "Onboarding: enter your email for session attribution (blank to skip)"@,
                ),
            ],
        )
    }
}

/// The line that confirms an email address.
pub open spec fn saved_line(required: bool, email: Seq<char>) -> Seq<char> {
    if required {
        tagged("Saved onboarding email: "@ + email)
    } else {
        tagged("Onboarding complete: "@ + email)
    }
}

/// An email address was typed.
pub open spec fn email_answered(s: DialogueView, entries: Seq<ConfigEntryView>, line: Seq<char>) -> TurnView {
    let typed = trimmed(line);
    if typed.len() == 0 {
        if s.required {
            ended(s, entries, Err(DialogueErrorView::EmailRequired), Seq::empty())
        } else {
            email_settled(s, entries, seq![tagged("Onboarding skipped."@)])
        }
    } else {
        match normalized_email(typed) {
            None => ended(s, entries, Err(DialogueErrorView::InvalidEmail), Seq::empty()),
            Some(email) => email_settled(
                s,
                assigned(entries, EMAIL_CONFIG_KEY@, email),
                seq![saved_line(s.required, email)],
            ),
        }
    }
}

/// The list of selected repositories is complete.
pub open spec fn list_saved(s: DialogueView, entries: Seq<ConfigEntryView>) -> TurnView {
    ended(
        s,
        assigned(entries, SCOPE_SELECTED_REPOS_KEY@, string_list_text(s.selected)),
        Ok(()),
        seq![tagged("Scope set: selected repos"@)],
    )
}

/// The next turn of a dialogue.
pub open spec fn next_turn(s: DialogueView, entries: Seq<ConfigEntryView>, reply: ReplyView) -> TurnView {
    match reply {
        ReplyView::ReadFailed(m) => ended(s, entries, Err(DialogueErrorView::Read(m)), Seq::empty()),
        ReplyView::Line(line) => match s.phase {
            DialoguePhase::EmailAnswer => email_answered(s, entries, line),
            DialoguePhase::AllAnswer => if says_yes(line, false) {
                ended(
                    s,
                    assigned(entries, SCOPE_CONFIG_KEY@, scope_name(ScopeMode::All)),
                    Ok(()),
                    seq![tagged("Scope set: all repos"@)],
                )
            } else {
                asked(
                    s,
                    entries,
                    DialoguePhase::SelectedAnswer,
                    "Use selected repos allowlist? [y/N]: "@,
                    Seq::empty(),
                )
            },
            DialoguePhase::SelectedAnswer => if says_yes(line, false) {
                let chosen = assigned(entries, SCOPE_CONFIG_KEY@, scope_name(ScopeMode::Selected));
                TurnView {
                    state: DialogueView {
                        phase: DialoguePhase::ListCurrent,
                        selected: selected_repos_of(settings_of(chosen)),
                        ..s
                    },
                    entries: chosen,
                    request: RequestView::ResolveCurrent,
                    log: Seq::empty(),
                }
            } else {
                TurnView {
                    state: DialogueView { phase: DialoguePhase::ModeCurrent, ..s },
                    entries: assigned(entries, SCOPE_CONFIG_KEY@, scope_name(ScopeMode::Current)),
                    request: RequestView::ResolveCurrent,
                    log: Seq::empty(),
                }
            },
            DialoguePhase::ListCurrentAnswer => {
                let typed = trimmed(line);
                let selected = if typed.len() == 0 || eq_ignoring_ascii_case(typed, "y"@) {
                    with_repo(s.selected, s.subject)
                } else {
                    s.selected
                };
                asked(
                    DialogueView { selected, ..s },
                    entries,
                    DialoguePhase::ListPathAnswer,
                    path_prompt(),
                    Seq::empty(),
                )
            },
            DialoguePhase::ListPathAnswer => {
                let typed = trimmed(line);
                if typed.len() == 0 {
                    list_saved(s, entries)
                } else {
                    TurnView {
                        state: DialogueView {
                            phase: DialoguePhase::ListPathResolution,
                            subject: typed,
                            ..s
                        },
                        entries,
                        request: RequestView::Resolve { path: typed },
                        log: Seq::empty(),
                    }
                }
            },
            _ => ended(s, entries, Err(DialogueErrorView::Unexpected), Seq::empty()),
        },
        ReplyView::Repo(root) => match s.phase {
            DialoguePhase::ListCurrent => asked(
                DialogueView { subject: root, ..s },
                entries,
                DialoguePhase::ListCurrentAnswer,
                Seq::empty(),
                seq![tagged("Add current repo to selected list? "@ + root + " [Y/n]"@)],
            ),
            DialoguePhase::ListPathResolution => asked(
                DialogueView { selected: with_repo(s.selected, root), ..s },
                entries,
                DialoguePhase::ListPathAnswer,
                path_prompt(),
                seq![tagged("Added "@ + root)],
            ),
            DialoguePhase::ModeCurrent => ended(
                s,
                assigned(entries, SCOPE_CURRENT_REPO_KEY@, root),
                Ok(()),
                seq![tagged("Scope set: current repo"@)],
            ),
            _ => ended(s, entries, Err(DialogueErrorView::Unexpected), Seq::empty()),
        },
        ReplyView::NoRepo(why) => match s.phase {
            DialoguePhase::ListCurrent => asked(
                s,
                entries,
                DialoguePhase::ListPathAnswer,
                path_prompt(),
                Seq::empty(),
            ),
            DialoguePhase::ListPathResolution => asked(
                s,
                entries,
                DialoguePhase::ListPathAnswer,
                path_prompt(),
                seq![tagged("warning: "@ + s.subject + " is not a git repo: "@ + why)],
            ),
            DialoguePhase::ModeCurrent => ended(
                s,
                assigned(entries, SCOPE_CONFIG_KEY@, scope_name(ScopeMode::All)),
                Ok(()),
                seq![tagged("Scope set: all repos (not currently in a git repo)"@)],
            ),
            _ => ended(s, entries, Err(DialogueErrorView::Unexpected), Seq::empty()),
        },
    }
}

/// The dialogue, the assignments and the turn are what the transition
/// says.
pub open spec fn turn_is(state: Dialogue, entries: Seq<ConfigEntryView>, turn: Turn, expected: TurnView) -> bool {
    &&& state.deep_view() == expected.state
    &&& entries == expected.entries
    &&& turn.request.deep_view() == expected.request
    &&& turn.log.deep_view() == expected.log
}

/// A dialogue in which nothing was asked yet.
pub open spec fn fresh(force: bool, terminal: bool, then_scope: bool, required: bool) -> DialogueView {
    DialogueView {
        phase: DialoguePhase::Done,
        force,
        terminal,
        then_scope,
        required,
        selected: Seq::empty(),
        subject: Seq::empty(),
    }
}

fn no_lines() -> (r: Vec<String>)
    ensures
        r.deep_view() == Seq::<Seq<char>>::empty(),
{
    let r: Vec<String> = Vec::new();
    proof {
        assert(r.deep_view() =~= Seq::<Seq<char>>::empty());
    }
    r
}

fn add_line(log: Vec<String>, line: String) -> (r: Vec<String>)
    ensures
        r.deep_view() == log.deep_view().push(line@),
{
    let mut r = log;
    r.push(line);
    proof {
        assert(r.deep_view() =~= log.deep_view().push(line@));
    }
    r
}

fn one_line(line: String) -> (r: Vec<String>)
    ensures
        r.deep_view() == seq![line@],
{
    let r = add_line(no_lines(), line);
    proof {
        assert(r.deep_view() =~= seq![line@]);
    }
    r
}

fn tag(text: &str) -> (r: String)
    ensures
        r@ == tagged(text@),
{
    concat("[ai-session-commit-linker] ", text)
}

fn tag2(head: &str, tail: &str) -> (r: String)
    ensures
        r@ == tagged(head@ + tail@),
{
    let mut s = "[ai-session-commit-linker] ".to_owned();
    let ghost before = s@;
    s.append(head);
    s.append(tail);
    proof {
        assert(s@ =~= before + (head@ + tail@));
    }
    s
}

fn push_unless_there(list: &mut Vec<String>, item: &str)
    ensures
        final(list).deep_view() == with_repo(old(list).deep_view(), item@),
{
    let ghost all = list.deep_view();
    let mut i: usize = 0;
    while i < list.len()
        invariant
            i <= list.len(),
            all == list.deep_view(),
            all.len() == list.len(),
            *list == *old(list),
            forall|j: int| 0 <= j < i ==> all[j] != item@,
        decreases list.len() - i,
    {
        assert(all[i as int] == list[i as int]@);
        if str_eq(list[i].as_str(), item) {
            return ;
        }
        i += 1;
    }
    list.push(item.to_owned());
    proof {
        assert(list.deep_view() =~= all.push(item@));
    }
}

impl Dialogue {
    fn create(force: bool, terminal: bool, then_scope: bool, required: bool) -> (r: Dialogue)
        ensures
            r.deep_view() == fresh(force, terminal, then_scope, required),
    {
        let r = Dialogue {
            phase: DialoguePhase::Done,
            force,
            terminal,
            then_scope,
            required,
            selected: Vec::new(),
            subject: String::new(),
        };
        proof {
            assert(r.selected.deep_view() =~= Seq::<Seq<char>>::empty());
        }
        r
    }

    /// Whether the dialogue is over.
    pub fn is_done(&self) -> (r: bool)
        ensures
            r == (self.phase == DialoguePhase::Done),
    {
        match self.phase {
            DialoguePhase::Done => true,
            _ => false,
        }
    }

    fn end(&mut self, result: Result<(), DialogueError>, log: Vec<String>) -> (r: Turn)
        ensures
            final(self).deep_view() == (DialogueView {
                phase: DialoguePhase::Done,
                ..old(self).deep_view()
            }),
            r.request.deep_view() == RequestView::Finish(
                match result {
                    Ok(_) => Ok(()),
                    Err(e) => Err(e.deep_view()),
                },
            ),
            r.log == log,
    {
        self.phase = DialoguePhase::Done;
        Turn { request: Request::Finish(result), log }
    }

    fn ask(&mut self, phase: DialoguePhase, prompt: &str, log: Vec<String>) -> (r: Turn)
        ensures
            final(self).deep_view() == (DialogueView { phase, ..old(self).deep_view() }),
            r.request.deep_view() == (RequestView::Ask { prompt: prompt@ }),
            r.log == log,
    {
        self.phase = phase;
        Turn { request: Request::Ask { prompt: prompt.to_owned() }, log }
    }

    fn begin_scope(&mut self, config: &mut Config, log: Vec<String>) -> (r: Turn)
        ensures
            turn_is(
                *final(self),
                final(config).entries.deep_view(),
                r,
                scope_begun(old(self).deep_view(), old(config).entries.deep_view(), log.deep_view()),
            ),
    {
        let on_record = match config.get(Scope::Global, SCOPE_CONFIG_KEY) {
            Some(raw) => parse_scope_mode(raw.as_str()),
            None => None,
        };
        if !self.force {
            match on_record {
                Some(mode) => {
                    let line = tag2("Scope: using existing mode ", mode.as_str());
                    return self.end(Ok(()), add_line(log, line));
                },
                None => {},
            }
        }
        if !self.terminal {
            set_scope_mode(config, ScopeMode::All);
            let line = tag(
                "Scope: no TTY; defaulting to all repos (manage later with `ai-session-commit-linker scope ...`)",
            );
            return self.end(Ok(()), add_line(log, line));
        }
        self.ask(
            DialoguePhase::AllAnswer,
            "Run in all repos? [y/N]: ",
            add_line(log, tag("Scope setup:")),
        )
    }

    fn settle_email(&mut self, config: &mut Config, log: Vec<String>) -> (r: Turn)
        ensures
            turn_is(
                *final(self),
                final(config).entries.deep_view(),
                r,
                email_settled(old(self).deep_view(), old(config).entries.deep_view(), log.deep_view()),
            ),
    {
        if self.then_scope {
            self.begin_scope(config, log)
        } else {
            self.end(Ok(()), log)
        }
    }

    fn begin_email(&mut self, config: &mut Config) -> (r: Turn)
        ensures
            turn_is(
                *final(self),
                final(config).entries.deep_view(),
                r,
                email_begun(old(self).deep_view(), old(config).entries.deep_view()),
            ),
    {
        if !self.force {
            match get_email(config) {
                Some(existing) => {
                    let line = tag2("Onboarding: using existing email ", existing.as_str());
                    return self.settle_email(config, one_line(line));
                },
                None => {},
            }
        }
        if !self.terminal {
            let line = tag(
                "Onboarding: no TTY; skip email prompt (run `ai-session-commit-linker onboard --email <you@example.com>` later)",
            );
            return self.settle_email(config, one_line(line));
        }
        let line = tag("Onboarding: enter your email for session attribution (blank to skip)");
        proof {
            assert(""@ =~= Seq::<char>::empty()) by {
                reveal_strlit("");
            }
        }
        self.ask(DialoguePhase::EmailAnswer, "", one_line(line))
    }

    fn answer_email(&mut self, config: &mut Config, line: &str) -> (r: Turn)
        ensures
            turn_is(
                *final(self),
                final(config).entries.deep_view(),
                r,
                email_answered(old(self).deep_view(), old(config).entries.deep_view(), line@),
            ),
    {
        let typed = trim_chars(&to_chars(line));
        if typed.len() == 0 {
            if self.required {
                return self.end(Err(DialogueError::EmailRequired), no_lines());
            }
            return self.settle_email(config, one_line(tag("Onboarding skipped.")));
        }
        match normalize_email(from_chars(&typed).as_str()) {
            None => self.end(Err(DialogueError::InvalidEmail), no_lines()),
            Some(email) => {
                config.set(Scope::Global, EMAIL_CONFIG_KEY, email.as_str());
                let confirmation = if self.required {
                    tag2("Saved onboarding email: ", email.as_str())
                } else {
                    tag2("Onboarding complete: ", email.as_str())
                };
                self.settle_email(config, one_line(confirmation))
            },
        }
    }

    fn save_list(&mut self, config: &mut Config) -> (r: Turn)
        ensures
            turn_is(
                *final(self),
                final(config).entries.deep_view(),
                r,
                list_saved(old(self).deep_view(), old(config).entries.deep_view()),
            ),
    {
        let text = write_string_list(&self.selected).unwrap();
        config.set(Scope::Global, SCOPE_SELECTED_REPOS_KEY, text.as_str());
        self.end(Ok(()), one_line(tag("Scope set: selected repos")))
    }

    fn answer_line(&mut self, config: &mut Config, line: &str) -> (r: Turn)
        ensures
            turn_is(
                *final(self),
                final(config).entries.deep_view(),
                r,
                next_turn(old(self).deep_view(), old(config).entries.deep_view(), ReplyView::Line(line@)),
            ),
    {
        match self.phase {
            DialoguePhase::EmailAnswer => self.answer_email(config, line),
            DialoguePhase::AllAnswer => {
                if read_yes_no(line, false) {
                    set_scope_mode(config, ScopeMode::All);
                    self.end(Ok(()), one_line(tag("Scope set: all repos")))
                } else {
                    self.ask(
                        DialoguePhase::SelectedAnswer,
                        "Use selected repos allowlist? [y/N]: ",
                        no_lines(),
                    )
                }
            },
            DialoguePhase::SelectedAnswer => {
                if read_yes_no(line, false) {
                    set_scope_mode(config, ScopeMode::Selected);
                    self.selected = get_selected_repos(config);
                    self.phase = DialoguePhase::ListCurrent;
                } else {
                    set_scope_mode(config, ScopeMode::Current);
                    self.phase = DialoguePhase::ModeCurrent;
                }
                Turn { request: Request::ResolveCurrent, log: no_lines() }
            },
            DialoguePhase::ListCurrentAnswer => {
                let typed = trim_chars(&to_chars(line));
                let yes = typed.len() == 0 || chars_eq(
                    &to_ascii_lowercase_chars(&typed),
                    &to_ascii_lowercase_chars(&to_chars("y")),
                );
                if yes {
                    let subject = self.subject.clone();
                    push_unless_there(&mut self.selected, subject.as_str());
                }
                self.ask(DialoguePhase::ListPathAnswer, "Add repo path (blank to finish): ", no_lines())
            },
            DialoguePhase::ListPathAnswer => {
                let typed = trim_chars(&to_chars(line));
                if typed.len() == 0 {
                    self.save_list(config)
                } else {
                    let path = from_chars(&typed);
                    self.subject = path.clone();
                    self.phase = DialoguePhase::ListPathResolution;
                    Turn { request: Request::Resolve { path }, log: no_lines() }
                }
            },
            _ => self.end(Err(DialogueError::Unexpected), no_lines()),
        }
    }

    /// Takes what the last request brought back and says what to do next.
    pub fn answer(&mut self, config: &mut Config, reply: Reply) -> (r: Turn)
        ensures
            turn_is(
                *final(self),
                final(config).entries.deep_view(),
                r,
                next_turn(old(self).deep_view(), old(config).entries.deep_view(), reply.deep_view()),
            ),
    {
        match reply {
            Reply::ReadFailed(m) => self.end(Err(DialogueError::Read(m)), no_lines()),
            Reply::Line(line) => self.answer_line(config, line.as_str()),
            Reply::Repo(root) => match self.phase {
                DialoguePhase::ListCurrent => {
                    let mut line = tag2("Add current repo to selected list? ", root.as_str());
                    line.append(" [Y/n]");
                    self.subject = root;
                    proof {
                        assert(""@ =~= Seq::<char>::empty()) by {
                            reveal_strlit("");
                        }
                        assert(line@ =~= tagged(
                            "Add current repo to selected list? "@ + root@ + " [Y/n]"@,
                        ));
                    }
                    self.ask(DialoguePhase::ListCurrentAnswer, "", one_line(line))
                },
                DialoguePhase::ListPathResolution => {
                    push_unless_there(&mut self.selected, root.as_str());
                    self.ask(
                        DialoguePhase::ListPathAnswer,
                        "Add repo path (blank to finish): ",
                        one_line(tag2("Added ", root.as_str())),
                    )
                },
                DialoguePhase::ModeCurrent => {
                    config.set(Scope::Global, SCOPE_CURRENT_REPO_KEY, root.as_str());
                    self.end(Ok(()), one_line(tag("Scope set: current repo")))
                },
                _ => self.end(Err(DialogueError::Unexpected), no_lines()),
            },
            Reply::NoRepo(why) => match self.phase {
                DialoguePhase::ListCurrent => self.ask(
                    DialoguePhase::ListPathAnswer,
                    "Add repo path (blank to finish): ",
                    no_lines(),
                ),
                DialoguePhase::ListPathResolution => {
                    let mut line = tag2("warning: ", self.subject.as_str());
                    line.append(" is not a git repo: ");
                    line.append(why.as_str());
                    proof {
                        assert(line@ =~= tagged(
                            "warning: "@ + self.subject@ + " is not a git repo: "@ + why@,
                        ));
                    }
                    self.ask(
                        DialoguePhase::ListPathAnswer,
                        "Add repo path (blank to finish): ",
                        one_line(line),
                    )
                },
                DialoguePhase::ModeCurrent => {
                    set_scope_mode(config, ScopeMode::All);
                    self.end(
                        Ok(()),
                        one_line(tag("Scope set: all repos (not currently in a git repo)")),
                    )
                },
                _ => self.end(Err(DialogueError::Unexpected), no_lines()),
            },
        }
    }
}

/// Begins the onboarding at install time: first the email address, then
/// the scope.
pub fn run_install_onboarding(
    config: &mut Config,
    force_first_time_experience: bool,
    terminal: bool,
) -> (r: (Dialogue, Turn))
    ensures
        turn_is(
            r.0,
            final(config).entries.deep_view(),
            r.1,
            email_begun(fresh(force_first_time_experience, terminal, true, false), old(config).entries.deep_view()),
        ),
{
    let mut dialogue = Dialogue::create(force_first_time_experience, terminal, true, false);
    let turn = dialogue.begin_email(config);
    (dialogue, turn)
}

/// Begins the question for the email address at install time. Where an
/// address is on record, or there is no terminal, nothing is asked.
pub fn ensure_email_on_install(config: &mut Config, force_prompt: bool, terminal: bool) -> (r: (
    Dialogue,
    Turn,
))
    ensures
        turn_is(
            r.0,
            final(config).entries.deep_view(),
            r.1,
            email_begun(fresh(force_prompt, terminal, false, false), old(config).entries.deep_view()),
        ),
{
    let mut dialogue = Dialogue::create(force_prompt, terminal, false, false);
    let turn = dialogue.begin_email(config);
    (dialogue, turn)
}

/// Begins the questions for the scope at install time. Where a mode is on
/// record nothing is asked; without a terminal the mode is `All`.
pub fn ensure_scope_on_install(config: &mut Config, force_prompt: bool, terminal: bool) -> (r: (
    Dialogue,
    Turn,
))
    ensures
        turn_is(
            r.0,
            final(config).entries.deep_view(),
            r.1,
            scope_begun(
                fresh(force_prompt, terminal, false, false),
                old(config).entries.deep_view(),
                Seq::empty(),
            ),
        ),
{
    let mut dialogue = Dialogue::create(force_prompt, terminal, false, false);
    let turn = dialogue.begin_scope(config, no_lines());
    (dialogue, turn)
}

/// What the onboarding command begins with: an address that was given is
/// put on record; without one, and with a terminal, it is asked for.
pub open spec fn onboarding_begun(
    entries: Seq<ConfigEntryView>,
    email: Option<Seq<char>>,
    terminal: bool,
) -> TurnView {
    let s = fresh(true, terminal, false, true);
    match email {
        Some(given) => match normalized_email(given) {
            Some(normal) => ended(
                s,
                assigned(entries, EMAIL_CONFIG_KEY@, normal),
                Ok(()),
                seq![saved_line(true, normal)],
            ),
            None => ended(s, entries, Err(DialogueErrorView::InvalidEmail), Seq::empty()),
        },
        None => if !terminal {
            ended(s, entries, Err(DialogueErrorView::NonInteractive), Seq::empty())
        } else {
            asked(s, entries, DialoguePhase::EmailAnswer, "Email: "@, Seq::empty())
        },
    }
}

/// Begins the onboarding command.
pub fn run_onboarding(config: &mut Config, email: Option<&str>, terminal: bool) -> (r: (
    Dialogue,
    Turn,
))
    ensures
        turn_is(
            r.0,
            final(config).entries.deep_view(),
            r.1,
            onboarding_begun(
                old(config).entries.deep_view(),
                match email {
                    Some(e) => Some(e@),
                    None => None,
                },
                terminal,
            ),
        ),
{
    let mut dialogue = Dialogue::create(true, terminal, false, true);
    let turn = match email {
        Some(given) => match normalize_email(given) {
            Some(normal) => {
                config.set(Scope::Global, EMAIL_CONFIG_KEY, normal.as_str());
                dialogue.end(Ok(()), one_line(tag2("Saved onboarding email: ", normal.as_str())))
            },
            None => dialogue.end(Err(DialogueError::InvalidEmail), no_lines()),
        },
        None => {
            if !terminal {
                dialogue.end(Err(DialogueError::NonInteractive), no_lines())
            } else {
                dialogue.ask(DialoguePhase::EmailAnswer, "Email: ", no_lines())
            }
        },
    };
    (dialogue, turn)
}

} // verus!
