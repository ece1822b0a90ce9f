//! The push policy: whether the tool runs at all in a repository, and whether
//! the annotations it attached may be sent to a remote.

use vstd::prelude::*;
use vstd::string::*;
use crate::config::{setting, Config, ConfigEntryView, Scope, Settings};
use crate::text::{
    concat,
    eq_ignore_ascii_case,
    eq_ignoring_ascii_case,
    find_char,
    from_chars,
    position,
    slice_chars,
    str_eq,
    to_chars,
};

verus! {

/// Repository setting that switches the tool off when it is `false`.
pub const ENABLED_KEY: &'static str = "ai.barometer.enabled";

/// Global setting that names the only organisation to push to.
pub const ORG_KEY: &'static str = "ai.barometer.org";

/// Repository setting that records consent to pushing.
pub const AUTOPUSH_KEY: &'static str = "ai.barometer.autopush";

/// What is known of the remotes of a repository.
#[derive(Debug, PartialEq, Eq)]
pub struct Remotes {
    /// Whether a remote is configured; `None` where that could not be found out.
    pub has_upstream: Option<bool>,
    /// The organisations of all remotes; `None` where they could not be read.
    pub orgs: Option<Vec<String>>,
}

pub struct RemotesView {
    pub has_upstream: Option<bool>,
    pub orgs: Option<Seq<Seq<char>>>,
}

impl DeepView for Remotes {
    type V = RemotesView;

    open spec fn deep_view(&self) -> RemotesView {
        RemotesView { has_upstream: self.has_upstream, orgs: self.orgs.deep_view() }
    }
}

/// The path of a remote address: what follows the host. An address is
/// either `scheme://host/path` or `host:path`; anything else, a local
/// directory for one, has no such path.
pub open spec fn remote_path(url: Seq<char>) -> Option<Seq<char>> {
    let colon = position(url, ':');
    if colon >= url.len() {
        None
    } else if colon + 2 < url.len() && url[colon + 1] == '/' && url[colon + 2] == '/' {
        let rest = url.skip(colon + 3);
        let slash = position(rest, '/');
        if slash >= rest.len() {
            None
        } else {
            Some(rest.skip(slash + 1))
        }
    } else {
        Some(url.skip(colon + 1))
    }
}

/// The organisation that a remote belongs to: the first part of the path
/// of its address, where another part follows.
pub open spec fn org_of(url: Seq<char>) -> Option<Seq<char>> {
    match remote_path(url) {
        None => None,
        Some(path) => {
            let slash = position(path, '/');
            if slash == 0 || slash >= path.len() {
                None
            } else {
                Some(path.take(slash))
            }
        },
    }
}

/// The organisation of the remote at `url`, if its address names one.
pub fn remote_org(url: &str) -> (r: Option<String>)
    ensures
        r.deep_view() == org_of(url@),
{
    let chars = to_chars(url);
    let n: usize = chars.len();
    let colon: usize = match find_char(&chars, ':') {
        Some(i) => i,
        None => {
            return None;
        },
    };
    let path = if n - colon > 2 && chars[colon + 1] == '/' && chars[colon + 2] == '/' {
        let rest = slice_chars(&chars, colon + 3, n);
        proof {
            assert(rest@ =~= url@.skip(colon + 3));
        }
        match find_char(&rest, '/') {
            Some(slash) => {
                let path = slice_chars(&rest, slash + 1, rest.len());
                proof {
                    assert(path@ =~= rest@.skip(slash + 1));
                }
                path
            },
            None => {
                return None;
            },
        }
    } else {
        let path = slice_chars(&chars, colon + 1, n);
        proof {
            assert(path@ =~= url@.skip(colon + 1));
        }
        path
    };
    match find_char(&path, '/') {
        Some(slash) => {
            if slash == 0 {
                None
            } else {
                let org = slice_chars(&path, 0, slash);
                proof {
                    assert(org@ =~= path@.take(slash as int));
                }
                Some(from_chars(&org))
            }
        },
        None => None,
    }
}

/// The list with `org` at its end, unless it is in the list already.
pub open spec fn with_org(orgs: Seq<Seq<char>>, org: Option<Seq<char>>) -> Seq<Seq<char>> {
    match org {
        Some(name) => if orgs.contains(name) {
            orgs
        } else {
            orgs.push(name)
        },
        None => orgs,
    }
}

/// The organisations of the remotes at the given addresses: each once, in
/// the order in which they first appear.
pub open spec fn orgs_of(urls: Seq<Seq<char>>) -> Seq<Seq<char>>
    decreases urls.len(),
{
    if urls.len() == 0 {
        Seq::empty()
    } else {
        with_org(orgs_of(urls.drop_last()), org_of(urls.last()))
    }
}

pub fn remote_orgs(urls: &Vec<String>) -> (r: Vec<String>)
    ensures
        r.deep_view() == orgs_of(urls.deep_view()),
{
    let ghost all = urls.deep_view();
    let mut orgs: Vec<String> = Vec::new();
    let mut i: usize = 0;
    proof {
        assert(all.take(0) =~= Seq::<Seq<char>>::empty());
        assert(orgs.deep_view() =~= Seq::<Seq<char>>::empty());
    }
    while i < urls.len()
        invariant
            i <= urls.len(),
            all == urls.deep_view(),
            all.len() == urls.len(),
            orgs.deep_view() == orgs_of(all.take(i as int)),
        decreases urls.len() - i,
    {
        proof {
            assert(all.take(i + 1).drop_last() =~= all.take(i as int));
            assert(all.take(i + 1).last() == urls[i as int]@);
        }
        match remote_org(urls[i].as_str()) {
            Some(org) => {
                let ghost found = orgs.deep_view();
                let mut known = false;
                let mut k: usize = 0;
                while k < orgs.len() && !known
                    invariant
                        k <= orgs.len(),
                        found == orgs.deep_view(),
                        found.len() == orgs.len(),
                        known ==> found.contains(org@),
                        !known ==> forall|j: int| 0 <= j < k ==> found[j] != org@,
                    decreases orgs.len() - k + (if known { 0int } else { 1int }),
                {
                    assert(found[k as int] == orgs[k as int]@);
                    if str_eq(orgs[k].as_str(), org.as_str()) {
                        known = true;
                    } else {
                        k += 1;
                    }
                }
                if !known {
                    orgs.push(org);
                    proof {
                        assert(orgs.deep_view() =~= found.push(org@));
                    }
                }
            },
            None => {},
        }
        i += 1;
    }
    proof {
        assert(all.take(i as int) =~= all);
    }
    orgs
}

/// The tool is enabled unless the repository says `false`.
pub open spec fn enabled(settings: Settings) -> bool {
    setting(settings, Scope::Repo, ENABLED_KEY@) != Some("false"@)
}

/// Whether the tool is enabled for this repository. When it is not, the
/// caller skips everything, not only the push.
pub fn check_enabled(config: &Config) -> (r: bool)
    ensures
        r == enabled(config@),
{
    match config.get(Scope::Repo, ENABLED_KEY) {
        Some(value) => !str_eq(value.as_str(), "false"),
        None => true,
    }
}

/// One of `orgs` is `org`, up to the case of ASCII letters.
pub open spec fn org_among(orgs: Seq<Seq<char>>, org: Seq<char>) -> bool {
    exists|i: int| 0 <= i < orgs.len() && eq_ignoring_ascii_case(#[trigger] orgs[i], org)
}

/// The organisation filter passes where none is configured, or where one of
/// the remotes belongs to the configured organisation.
pub open spec fn org_allowed(settings: Settings, orgs: Option<Seq<Seq<char>>>) -> bool {
    match setting(settings, Scope::Global, ORG_KEY@) {
        None => true,
        Some(org) => match orgs {
            None => false,
            Some(list) => org_among(list, org),
        },
    }
}

/// Whether the organisation filter lets the push through.
pub fn check_org_filter(config: &Config, remote_orgs: &Option<Vec<String>>) -> (r: bool)
    ensures
        r == org_allowed(config@, remote_orgs.deep_view()),
{
    let org = match config.get(Scope::Global, ORG_KEY) {
        Some(org) => org,
        None => {
            return true;
        },
    };
    match remote_orgs {
        None => false,
        Some(list) => {
            let ghost all = list.deep_view();
            let mut i: usize = 0;
            while i < list.len()
                invariant
                    i <= list.len(),
                    all == list.deep_view(),
                    all.len() == list.len(),
                    remote_orgs.deep_view() == Some(all),
                    setting(config@, Scope::Global, ORG_KEY@) == Some(org@),
                    forall|j: int| 0 <= j < i ==> !eq_ignoring_ascii_case(#[trigger] all[j], org@),
                decreases list.len() - i,
            {
                assert(all[i as int] == list[i as int]@);
                if eq_ignore_ascii_case(list[i].as_str(), org.as_str()) {
                    proof {
                        assert(eq_ignoring_ascii_case(all[i as int], org@));
                        assert(org_among(all, org@));
                    }
                    return true;
                }
                i += 1;
            }
            false
        },
    }
}

/// What the repository has on record about pushing.
#[derive(Debug, PartialEq, Eq)]
pub enum Consent {
    /// Consent was given; pushes are silent.
    Granted,
    /// The operator refused; nothing is pushed until the record is cleared.
    Refused,
    /// Nothing is on record yet.
    Unasked,
}

pub open spec fn consent_of(settings: Settings) -> Consent {
    let value = setting(settings, Scope::Repo, AUTOPUSH_KEY@);
    if value == Some("true"@) {
        Consent::Granted
    } else if value == Some("false"@) {
        Consent::Refused
    } else {
        Consent::Unasked
    }
}

/// The lines that tell the user, once per repository, that annotations will
/// be pushed.
pub open spec fn disclosure() -> Seq<Seq<char>> {
    seq![
        "[ai-barometer] This is the first time AI Barometer will push notes for this repository."@,
        "[ai-barometer] AI session notes will be pushed to the remote via:"@,
        "[ai-barometer]   git push origin refs/notes/ai-sessions"@,
        "[ai-barometer] To disable, run: git config ai.barometer.autopush false"@,
    ]
}

/// The settings after consent was looked up: the first look records it.
pub open spec fn settings_after_consent(settings: Settings) -> Settings {
    match consent_of(settings) {
        Consent::Unasked => settings.insert((Scope::Repo, AUTOPUSH_KEY@), "true"@),
        _ => settings,
    }
}

/// The lines that looking up consent prints.
pub open spec fn consent_lines(settings: Settings) -> Seq<Seq<char>> {
    match consent_of(settings) {
        Consent::Unasked => disclosure(),
        _ => Seq::empty(),
    }
}

/// The assignments that looking up consent adds: consent itself, the
/// first time, and nothing after that.
pub open spec fn consent_assignments(settings: Settings) -> Seq<ConfigEntryView> {
    match consent_of(settings) {
        Consent::Unasked => seq![
            ConfigEntryView { scope: Scope::Repo, key: AUTOPUSH_KEY@, value: "true"@ },
        ],
        _ => Seq::empty(),
    }
}

/// Looks up consent to pushing. The first time in a repository it prints
/// the disclosure to `log` and records consent; after that it is silent.
pub fn check_or_request_consent(config: &mut Config, log: &mut Vec<String>) -> (r: bool)
    ensures
        r == !(consent_of(old(config)@) is Refused),
        final(config)@ == settings_after_consent(old(config)@),
        final(config).entries.deep_view() == old(config).entries.deep_view() + consent_assignments(
            old(config)@,
        ),
        final(log).deep_view() == old(log).deep_view() + consent_lines(old(config)@),
{
    let ghost lines = log.deep_view();
    let ghost made = config.entries.deep_view();
    proof {
        assert(made + Seq::<ConfigEntryView>::empty() =~= made);
    }
    match config.get(Scope::Repo, AUTOPUSH_KEY) {
        Some(value) => {
            if str_eq(value.as_str(), "true") {
                proof {
                    assert(lines + Seq::<Seq<char>>::empty() =~= lines);
                }
                return true;
            }
            if str_eq(value.as_str(), "false") {
                proof {
                    assert(lines + Seq::<Seq<char>>::empty() =~= lines);
                }
                return false;
            }
        },
        None => {},
    }
    log.push(
        "[ai-barometer] This is the first time AI Barometer will push notes for this repository.".to_owned(),
    );
    log.push("[ai-barometer] AI session notes will be pushed to the remote via:".to_owned());
    log.push("[ai-barometer]   git push origin refs/notes/ai-sessions".to_owned());
    log.push("[ai-barometer] To disable, run: git config ai.barometer.autopush false".to_owned());
    config.set(Scope::Repo, AUTOPUSH_KEY, "true");
    proof {
        assert(log.deep_view() =~= lines + disclosure());
        assert(config.entries.deep_view() =~= made + consent_assignments(old(config)@));
    }
    true
}

/// Whether annotations may be pushed: a remote exists, the organisation
/// filter passes, and consent was not refused.
pub open spec fn push_allowed(settings: Settings, remotes: RemotesView) -> bool {
    remotes.has_upstream == Some(true) && org_allowed(settings, remotes.orgs) && !(consent_of(
        settings,
    ) is Refused)
}

/// Whether the decision gets as far as looking up consent.
pub open spec fn reaches_consent(settings: Settings, remotes: RemotesView) -> bool {
    remotes.has_upstream == Some(true) && org_allowed(settings, remotes.orgs)
}

/// The settings after the decision was made.
pub open spec fn settings_after_decision(settings: Settings, remotes: RemotesView) -> Settings {
    if reaches_consent(settings, remotes) {
        settings_after_consent(settings)
    } else {
        settings
    }
}

/// The lines that the decision prints.
pub open spec fn decision_lines(settings: Settings, remotes: RemotesView) -> Seq<Seq<char>> {
    if reaches_consent(settings, remotes) {
        consent_lines(settings)
    } else {
        Seq::empty()
    }
}

/// The assignments that the decision adds.
pub open spec fn decision_assignments(settings: Settings, remotes: RemotesView) -> Seq<
    ConfigEntryView,
> {
    if reaches_consent(settings, remotes) {
        consent_assignments(settings)
    } else {
        Seq::empty()
    }
}

/// Decides whether the annotations of this repository are pushed.
pub fn should_push(config: &mut Config, remotes: &Remotes, log: &mut Vec<String>) -> (r: bool)
    ensures
        r == push_allowed(old(config)@, remotes.deep_view()),
        final(config)@ == settings_after_decision(old(config)@, remotes.deep_view()),
        final(config).entries.deep_view() == old(config).entries.deep_view()
            + decision_assignments(old(config)@, remotes.deep_view()),
        final(log).deep_view() == old(log).deep_view() + decision_lines(
            old(config)@,
            remotes.deep_view(),
        ),
{
    let ghost lines = log.deep_view();
    let ghost made = config.entries.deep_view();
    proof {
        assert(lines + Seq::<Seq<char>>::empty() =~= lines);
        assert(made + Seq::<ConfigEntryView>::empty() =~= made);
    }
    match remotes.has_upstream {
        Some(true) => {},
        _ => {
            return false;
        },
    }
    if !check_org_filter(config, &remotes.orgs) {
        return false;
    }
    check_or_request_consent(config, log)
}

/// The warning for a push that failed.
pub open spec fn push_warning(error: Seq<char>) -> Seq<char> {
    "[ai-barometer] warning: failed to push notes: "@ + error
}

/// Takes note of how the push went. A failure is logged and forgotten: it
/// is neither retried nor handed on.
pub fn attempt_push(outcome: &Result<(), String>, log: &mut Vec<String>)
    ensures
        final(log).deep_view() == match outcome {
            Ok(_) => old(log).deep_view(),
            Err(error) => old(log).deep_view().push(push_warning(error@)),
        },
{
    let ghost lines = log.deep_view();
    match outcome {
        Ok(_) => {},
        Err(error) => {
            log.push(concat("[ai-barometer] warning: failed to push notes: ", error.as_str()));
            proof {
                assert(log.deep_view() =~= lines.push(push_warning(error@)));
            }
        },
    }
}

/// Without a remote nothing is pushed.
pub proof fn lemma_no_remote_no_push(settings: Settings, remotes: RemotesView)
    requires
        remotes.has_upstream != Some(true),
    ensures
        !push_allowed(settings, remotes),
        settings_after_decision(settings, remotes) == settings,
{
}

/// With a remote, no organisation filter and nothing on record, the first
/// question is answered with yes and leaves consent on record; asked again,
/// the answer is yes again, without a word and without a change.
pub proof fn lemma_first_push_records_consent(settings: Settings, remotes: RemotesView)
    requires
        remotes.has_upstream == Some(true),
        setting(settings, Scope::Global, ORG_KEY@) is None,
        consent_of(settings) is Unasked,
    ensures
        push_allowed(settings, remotes),
        decision_lines(settings, remotes) == disclosure(),
        consent_of(settings_after_decision(settings, remotes)) is Granted,
        push_allowed(settings_after_decision(settings, remotes), remotes),
        decision_lines(settings_after_decision(settings, remotes), remotes) == Seq::<Seq<char>>::empty(),
        settings_after_decision(settings_after_decision(settings, remotes), remotes)
            == settings_after_decision(settings, remotes),
{
    reveal_strlit("ai.barometer.org");
    reveal_strlit("ai.barometer.autopush");
    reveal_strlit("true");
    reveal_strlit("false");
    let after = settings_after_decision(settings, remotes);
    assert("true"@ != "false"@) by {
        assert("true"@.len() == 4);
        assert("false"@.len() == 5);
    }
    assert("ai.barometer.org"@ != "ai.barometer.autopush"@) by {
        assert("ai.barometer.org"@.len() == 16);
        assert("ai.barometer.autopush"@.len() == 21);
    }
    assert(setting(after, Scope::Repo, AUTOPUSH_KEY@) == Some("true"@));
    assert(setting(after, Scope::Global, ORG_KEY@) is None);
}

/// Where an organisation filter is configured and no remote belongs to
/// that organisation, nothing is pushed, whatever is on record about
/// consent.
pub proof fn lemma_org_filter_forbids_push(settings: Settings, remotes: RemotesView)
    requires
        setting(settings, Scope::Global, ORG_KEY@) matches Some(org) && (remotes.orgs matches Some(
            list,
        ) ==> !org_among(list, org)),
    ensures
        !push_allowed(settings, remotes),
        settings_after_decision(settings, remotes) == settings,
{
}

/// A refusal on record forbids the push and stays on record.
pub proof fn lemma_refusal_forbids_push(settings: Settings, remotes: RemotesView)
    requires
        consent_of(settings) is Refused,
    ensures
        !push_allowed(settings, remotes),
        settings_after_decision(settings, remotes) == settings,
{
}

} // verus!
