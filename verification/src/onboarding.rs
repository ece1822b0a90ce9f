//! Onboarding settings: the email address used for attribution and the set
//! of repositories in which the tool runs.

use vstd::prelude::*;
use vstd::string::*;
use crate::config::{setting, settings_of, Config, ConfigEntryView, Scope, Settings};
use crate::json::{parse_string_list, parsed_string_list, string_list_text, write_string_list};
use crate::text::{
    chars_eq,
    find_char,
    from_chars,
    lowercase,
    position,
    slice_chars,
    str_eq,
    to_ascii_lowercase_chars,
    to_chars,
    trim_chars,
    trimmed,
};

verus! {

pub const EMAIL_CONFIG_KEY: &'static str = "ai.session-commit-linker.email";

pub const SCOPE_CONFIG_KEY: &'static str = "ai.session-commit-linker.scope";

pub const SCOPE_CURRENT_REPO_KEY: &'static str = "ai.session-commit-linker.scope.current_repo";

pub const SCOPE_SELECTED_REPOS_KEY: &'static str = "ai.session-commit-linker.scope.selected";

/// In which repositories the tool runs.
#[derive(Debug, Clone, Copy, PartialEq, Eq, Structural)]
pub enum ScopeMode {
    /// Only in the repository it was set up in.
    Current,
    /// In every repository.
    All,
    /// In the repositories of a list.
    Selected,
}

pub open spec fn scope_name(mode: ScopeMode) -> Seq<char> {
    match mode {
        ScopeMode::Current => "current"@,
        ScopeMode::All => "all"@,
        ScopeMode::Selected => "selected"@,
    }
}

impl ScopeMode {
    pub fn as_str(self) -> (r: &'static str)
        ensures
            r@ == scope_name(self),
    {
        match self {
            ScopeMode::Current => "current",
            ScopeMode::All => "all",
            ScopeMode::Selected => "selected",
        }
    }
}

/// Why an onboarding setting could not be changed.
#[derive(Debug, Clone, Copy, PartialEq, Eq, Structural)]
pub enum OnboardingError {
    /// The text is no email address.
    InvalidEmail,
    /// The path lies in no repository.
    NotARepository,
}

impl OnboardingError {
    pub fn message(self) -> (r: &'static str)
        ensures
            r@ == match self {
                OnboardingError::InvalidEmail => "invalid email"@,
                OnboardingError::NotARepository => "not a git repository"@,
            },
    {
        match self {
            OnboardingError::InvalidEmail => "invalid email",
            OnboardingError::NotARepository => "not a git repository",
        }
    }
}

/// The scope mode that a text names, whatever its case and the space
/// around it.
pub open spec fn parsed_scope_mode(raw: Seq<char>) -> Option<ScopeMode> {
    let name = lowercase(trimmed(raw));
    if name == "current"@ {
        Some(ScopeMode::Current)
    } else if name == "all"@ {
        Some(ScopeMode::All)
    } else if name == "selected"@ {
        Some(ScopeMode::Selected)
    } else {
        None
    }
}

pub fn parse_scope_mode(raw: &str) -> (r: Option<ScopeMode>)
    ensures
        r == parsed_scope_mode(raw@),
{
    let name = to_ascii_lowercase_chars(&trim_chars(&to_chars(raw)));
    if chars_eq(&name, &to_chars("current")) {
        Some(ScopeMode::Current)
    } else if chars_eq(&name, &to_chars("all")) {
        Some(ScopeMode::All)
    } else if chars_eq(&name, &to_chars("selected")) {
        Some(ScopeMode::Selected)
    } else {
        None
    }
}

/// The normal form of an email address: trimmed and in lower case. A text
/// is an address where it holds no space, and an `@` with something before
/// it and a domain after it; the domain holds a dot, but neither begins nor
/// ends with one.
pub open spec fn normalized_email(input: Seq<char>) -> Option<Seq<char>> {
    let email = lowercase(trimmed(input));
    let at = position(email, '@');
    let domain = email.subrange(at + 1, email.len() as int);
    if email.len() == 0 || position(email, ' ') < email.len() {
        None
    } else if at >= email.len() || at == 0 || at + 1 == email.len() {
        None
    } else if domain[0] == '.' || domain.last() == '.' || position(domain, '.') >= domain.len() {
        None
    } else {
        Some(email)
    }
}

pub fn normalize_email(input: &str) -> (r: Option<String>)
    ensures
        r.deep_view() == normalized_email(input@),
{
    let email = to_ascii_lowercase_chars(&trim_chars(&to_chars(input)));
    let n: usize = email.len();
    if n == 0 || find_char(&email, ' ').is_some() {
        return None;
    }
    let at: usize = match find_char(&email, '@') {
        Some(i) => i,
        None => {
            return None;
        },
    };
    if at == 0 || at + 1 == n {
        return None;
    }
    let domain = slice_chars(&email, at + 1, n);
    if domain[0] == '.' || domain[domain.len() - 1] == '.' || find_char(&domain, '.').is_none() {
        return None;
    }
    Some(from_chars(&email))
}

/// The email address on record: the global setting, trimmed, unless it is
/// blank.
pub open spec fn email_of(settings: Settings) -> Option<Seq<char>> {
    match setting(settings, Scope::Global, EMAIL_CONFIG_KEY@) {
        Some(email) => if trimmed(email).len() > 0 {
            Some(trimmed(email))
        } else {
            None
        },
        None => None,
    }
}

/// The email address on record, if there is one.
pub fn get_email(config: &Config) -> (r: Option<String>)
    ensures
        r.deep_view() == email_of(config@),
{
    match config.get(Scope::Global, EMAIL_CONFIG_KEY) {
        Some(email) => {
            let t = trim_chars(&to_chars(email.as_str()));
            if t.len() > 0 {
                Some(from_chars(&t))
            } else {
                None
            }
        },
        None => None,
    }
}

/// The assignments with one more, at global scope.
pub open spec fn assigned(entries: Seq<ConfigEntryView>, key: Seq<char>, value: Seq<char>) -> Seq<
    ConfigEntryView,
> {
    entries.push(ConfigEntryView { scope: Scope::Global, key, value })
}

/// Puts an email address on record, in its normal form.
pub fn set_email(config: &mut Config, email: &str) -> (r: Result<String, OnboardingError>)
    ensures
        final(config).entries.deep_view() == match normalized_email(email@) {
            Some(normal) => assigned(old(config).entries.deep_view(), EMAIL_CONFIG_KEY@, normal),
            None => old(config).entries.deep_view(),
        },
        match normalized_email(email@) {
            Some(normal) => r matches Ok(saved) && saved@ == normal && final(config)@ == old(config)@.insert((Scope::Global, EMAIL_CONFIG_KEY@), normal),
            None => r == Err::<String, OnboardingError>(OnboardingError::InvalidEmail) && final(config)@ == old(config)@,
        },
{
    match normalize_email(email) {
        Some(normal) => {
            config.set(Scope::Global, EMAIL_CONFIG_KEY, normal.as_str());
            Ok(normal)
        },
        None => Err(OnboardingError::InvalidEmail),
    }
}

/// The scope mode on record; `All` where none is, or none that can be
/// read.
pub open spec fn scope_mode_of(settings: Settings) -> ScopeMode {
    match setting(settings, Scope::Global, SCOPE_CONFIG_KEY@) {
        Some(raw) => match parsed_scope_mode(raw) {
            Some(mode) => mode,
            None => ScopeMode::All,
        },
        None => ScopeMode::All,
    }
}

pub fn get_scope_mode(config: &Config) -> (r: ScopeMode)
    ensures
        r == scope_mode_of(config@),
{
    match config.get(Scope::Global, SCOPE_CONFIG_KEY) {
        Some(raw) => match parse_scope_mode(raw.as_str()) {
            Some(mode) => mode,
            None => ScopeMode::All,
        },
        None => ScopeMode::All,
    }
}

/// Puts a scope mode on record.
pub fn set_scope_mode(config: &mut Config, mode: ScopeMode)
    ensures
        final(config).entries.deep_view() == assigned(
            old(config).entries.deep_view(),
            SCOPE_CONFIG_KEY@,
            scope_name(mode),
        ),
        final(config)@ == old(config)@.insert((Scope::Global, SCOPE_CONFIG_KEY@), scope_name(mode)),
{
    config.set(Scope::Global, SCOPE_CONFIG_KEY, mode.as_str());
}

/// The list of selected repositories on record; empty where none is, or
/// none that can be read.
pub open spec fn selected_repos_of(settings: Settings) -> Seq<Seq<char>> {
    match setting(settings, Scope::Global, SCOPE_SELECTED_REPOS_KEY@) {
        Some(raw) => match parsed_string_list(raw) {
            Some(list) => list,
            None => Seq::empty(),
        },
        None => Seq::empty(),
    }
}

pub fn get_selected_repos(config: &Config) -> (r: Vec<String>)
    ensures
        r.deep_view() == selected_repos_of(config@),
{
    match config.get(Scope::Global, SCOPE_SELECTED_REPOS_KEY) {
        Some(raw) => match parse_string_list(raw.as_str()) {
            Some(list) => list,
            None => empty_list(),
        },
        None => empty_list(),
    }
}

fn empty_list() -> (r: Vec<String>)
    ensures
        r.deep_view() == Seq::<Seq<char>>::empty(),
{
    let r: Vec<String> = Vec::new();
    proof {
        assert(r.deep_view() =~= Seq::<Seq<char>>::empty());
    }
    r
}

/// The settings with the list of selected repositories replaced.
pub open spec fn with_selected(settings: Settings, repos: Seq<Seq<char>>) -> Settings {
    settings.insert((Scope::Global, SCOPE_SELECTED_REPOS_KEY@), string_list_text(repos))
}

/// The assignments with the list of selected repositories replaced.
pub open spec fn selected_assigned(entries: Seq<ConfigEntryView>, repos: Seq<Seq<char>>) -> Seq<
    ConfigEntryView,
> {
    assigned(entries, SCOPE_SELECTED_REPOS_KEY@, string_list_text(repos))
}

fn save_selected_repos(config: &mut Config, repos: &Vec<String>)
    ensures
        final(config).entries.deep_view() == selected_assigned(
            old(config).entries.deep_view(),
            repos.deep_view(),
        ),
        final(config)@ == with_selected(old(config)@, repos.deep_view()),
{
    let text = write_string_list(repos).unwrap();
    config.set(Scope::Global, SCOPE_SELECTED_REPOS_KEY, text.as_str());
}

fn list_contains(list: &Vec<String>, item: &str) -> (r: bool)
    ensures
        r == list.deep_view().contains(item@),
{
    let ghost all = list.deep_view();
    let mut i: usize = 0;
    while i < list.len()
        invariant
            i <= list.len(),
            all == list.deep_view(),
            all.len() == list.len(),
            forall|j: int| 0 <= j < i ==> all[j] != item@,
        decreases list.len() - i,
    {
        assert(all[i as int] == list[i as int]@);
        if str_eq(list[i].as_str(), item) {
            return true;
        }
        i += 1;
    }
    false
}

/// The root of a repository in the form in which it is put on record:
/// canonical where the path could be resolved, else as it was found.
pub fn canonical_repo_root(root: Option<&str>, canonical: Option<&str>) -> (r: Result<
    String,
    OnboardingError,
>)
    ensures
        match root {
            None => r == Err::<String, OnboardingError>(OnboardingError::NotARepository),
            Some(found) => r matches Ok(path) && path@ == match canonical {
                Some(c) => c@,
                None => found@,
            },
        },
{
    match root {
        None => Err(OnboardingError::NotARepository),
        Some(found) => match canonical {
            Some(c) => Ok(c.to_owned()),
            None => Ok(found.to_owned()),
        },
    }
}

/// Whether the tool runs in the repository whose root is `repo_root`.
pub open spec fn in_scope(settings: Settings, repo_root: Seq<char>) -> bool {
    match scope_mode_of(settings) {
        ScopeMode::All => true,
        ScopeMode::Current => setting(settings, Scope::Global, SCOPE_CURRENT_REPO_KEY@) == Some(
            repo_root,
        ),
        ScopeMode::Selected => selected_repos_of(settings).contains(repo_root),
    }
}

pub fn is_repo_in_scope(config: &Config, repo_root: &str) -> (r: bool)
    ensures
        r == in_scope(config@, repo_root@),
{
    match get_scope_mode(config) {
        ScopeMode::All => true,
        ScopeMode::Current => match config.get(Scope::Global, SCOPE_CURRENT_REPO_KEY) {
            Some(current) => str_eq(current.as_str(), repo_root),
            None => false,
        },
        ScopeMode::Selected => list_contains(&get_selected_repos(config), repo_root),
    }
}

/// The list with `repo` at its end, unless it is in the list already.
pub open spec fn with_repo(repos: Seq<Seq<char>>, repo: Seq<char>) -> Seq<Seq<char>> {
    if repos.contains(repo) {
        repos
    } else {
        repos.push(repo)
    }
}

/// The list without `repo`.
pub open spec fn without_repo(repos: Seq<Seq<char>>, repo: Seq<char>) -> Seq<Seq<char>>
    decreases repos.len(),
{
    if repos.len() == 0 {
        Seq::empty()
    } else if repos.last() == repo {
        without_repo(repos.drop_last(), repo)
    } else {
        without_repo(repos.drop_last(), repo).push(repos.last())
    }
}

/// Adds a repository to the list of selected ones. `repo` is the root of
/// the repository, or `None` where the path given lies in none.
pub fn add_selected_repo(config: &mut Config, repo: Option<&str>) -> (r: Result<
    String,
    OnboardingError,
>)
    ensures
        final(config).entries.deep_view() == match repo {
            Some(root) if !selected_repos_of(old(config)@).contains(root@) => selected_assigned(
                old(config).entries.deep_view(),
                selected_repos_of(old(config)@).push(root@),
            ),
            _ => old(config).entries.deep_view(),
        },
        match repo {
            None => r == Err::<String, OnboardingError>(OnboardingError::NotARepository) && final(config)@ == old(config)@,
            Some(root) => if selected_repos_of(old(config)@).contains(root@) {
                r matches Ok(added) && added@ == root@ && final(config)@ == old(config)@
            } else {
                r matches Ok(added) && added@ == root@ && final(config)@ == with_selected(
                    old(config)@,
                    selected_repos_of(old(config)@).push(root@),
                )
            },
        },
{
    let root = match repo {
        Some(root) => root,
        None => {
            return Err(OnboardingError::NotARepository);
        },
    };
    let mut repos = get_selected_repos(config);
    if !list_contains(&repos, root) {
        let ghost before = repos.deep_view();
        repos.push(root.to_owned());
        proof {
            assert(repos.deep_view() =~= before.push(root@));
        }
        save_selected_repos(config, &repos);
    }
    Ok(root.to_owned())
}

/// Takes a repository off the list of selected ones.
pub fn remove_selected_repo(config: &mut Config, repo: Option<&str>) -> (r: Result<
    String,
    OnboardingError,
>)
    ensures
        final(config).entries.deep_view() == match repo {
            Some(root) => selected_assigned(
                old(config).entries.deep_view(),
                without_repo(selected_repos_of(old(config)@), root@),
            ),
            None => old(config).entries.deep_view(),
        },
        match repo {
            None => r == Err::<String, OnboardingError>(OnboardingError::NotARepository) && final(config)@ == old(config)@,
            Some(root) => r matches Ok(removed) && removed@ == root@ && final(config)@
                == with_selected(
                old(config)@,
                without_repo(selected_repos_of(old(config)@), root@),
            ),
        },
{
    let root = match repo {
        Some(root) => root,
        None => {
            return Err(OnboardingError::NotARepository);
        },
    };
    let repos = get_selected_repos(config);
    let ghost all = repos.deep_view();
    let mut kept: Vec<String> = Vec::new();
    let mut i: usize = 0;
    proof {
        assert(all.take(0) =~= Seq::<Seq<char>>::empty());
        assert(kept.deep_view() =~= Seq::<Seq<char>>::empty());
    }
    while i < repos.len()
        invariant
            i <= repos.len(),
            all == repos.deep_view(),
            all.len() == repos.len(),
            kept.deep_view() == without_repo(all.take(i as int), root@),
        decreases repos.len() - i,
    {
        proof {
            assert(all.take(i + 1).drop_last() =~= all.take(i as int));
            assert(all.take(i + 1).last() == repos[i as int]@);
        }
        let ghost before = kept.deep_view();
        if !str_eq(repos[i].as_str(), root) {
            let item = repos[i].clone();
            kept.push(item);
            proof {
                assert(kept.deep_view() =~= before.push(item@));
            }
        }
        i += 1;
    }
    proof {
        assert(all.take(i as int) =~= all);
    }
    save_selected_repos(config, &kept);
    Ok(root.to_owned())
}

/// The repository that a change of scope refers to.
#[derive(Debug, PartialEq, Eq)]
pub struct RepoContext {
    /// Whether a path was given; without one the current directory counts.
    pub explicit: bool,
    /// The root of the repository at that path, or `None` where the path
    /// lies in none.
    pub root: Option<String>,
}

/// The settings after the scope mode was set with a repository in mind,
/// or the error that stopped it half way. The mode itself is on record
/// either way.
pub open spec fn scope_settings(
    settings: Settings,
    mode: ScopeMode,
    explicit: bool,
    root: Option<Seq<char>>,
) -> Result<Settings, (OnboardingError, Settings)> {
    let base = settings.insert((Scope::Global, SCOPE_CONFIG_KEY@), scope_name(mode));
    match mode {
        ScopeMode::All => Ok(base),
        ScopeMode::Current => match root {
            Some(repo) => Ok(base.insert((Scope::Global, SCOPE_CURRENT_REPO_KEY@), repo)),
            None => Err((OnboardingError::NotARepository, base)),
        },
        ScopeMode::Selected => if !explicit {
            Ok(base)
        } else {
            match root {
                None => Err((OnboardingError::NotARepository, base)),
                Some(repo) => Ok(with_selected(base, with_repo(selected_repos_of(base), repo))),
            }
        },
    }
}

/// The assignments after the scope mode was set with a repository in
/// mind: the mode, and after it what the mode needs, as far as it got.
pub open spec fn scope_assigned(
    entries: Seq<ConfigEntryView>,
    mode: ScopeMode,
    explicit: bool,
    root: Option<Seq<char>>,
) -> Seq<ConfigEntryView> {
    let base = assigned(entries, SCOPE_CONFIG_KEY@, scope_name(mode));
    match mode {
        ScopeMode::All => base,
        ScopeMode::Current => match root {
            Some(repo) => assigned(base, SCOPE_CURRENT_REPO_KEY@, repo),
            None => base,
        },
        ScopeMode::Selected => match root {
            Some(repo) if explicit => selected_assigned(
                base,
                with_repo(selected_repos_of(settings_of(base)), repo),
            ),
            _ => base,
        },
    }
}

/// Sets the scope mode and, with it, what the mode needs: the current
/// repository for `Current`, one more selected repository for `Selected`.
pub fn set_scope_mode_with_context(
    config: &mut Config,
    mode: ScopeMode,
    context: &RepoContext,
) -> (r: Result<(), OnboardingError>)
    ensures
        final(config).entries.deep_view() == scope_assigned(
            old(config).entries.deep_view(),
            mode,
            context.explicit,
            context.root.deep_view(),
        ),
        match scope_settings(old(config)@, mode, context.explicit, context.root.deep_view()) {
            Ok(settings) => r is Ok && final(config)@ == settings,
            Err((error, settings)) => r == Err::<(), OnboardingError>(error) && final(config)@
                == settings,
        },
{
    set_scope_mode(config, mode);
    match mode {
        ScopeMode::All => Ok(()),
        ScopeMode::Current => match &context.root {
            Some(repo) => {
                config.set(Scope::Global, SCOPE_CURRENT_REPO_KEY, repo.as_str());
                Ok(())
            },
            None => Err(OnboardingError::NotARepository),
        },
        ScopeMode::Selected => {
            if !context.explicit {
                return Ok(());
            }
            match &context.root {
                None => Err(OnboardingError::NotARepository),
                Some(repo) => {
                    let mut repos = get_selected_repos(config);
                    if !list_contains(&repos, repo.as_str()) {
                        let ghost before = repos.deep_view();
                        repos.push(repo.clone());
                        proof {
                            assert(repos.deep_view() =~= before.push(repo@));
                        }
                    }
                    save_selected_repos(config, &repos);
                    Ok(())
                },
            }
        },
    }
}

} // verus!
