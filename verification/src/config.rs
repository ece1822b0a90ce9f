//! Key/value configuration at repository and global scope, held in memory.
//!
//! The caller fills a [`Config`] from the real configuration before it calls
//! the library, and afterwards carries out the assignments that were added.

use vstd::prelude::*;
use crate::text::str_eq;

verus! {

/// Where a setting applies.
#[derive(Debug, Clone, Copy, PartialEq, Eq, Structural)]
pub enum Scope {
    /// The current repository.
    Repo,
    /// Every repository of the user.
    Global,
}

/// One assignment of a value to a key.
#[derive(Debug, PartialEq, Eq)]
pub struct ConfigEntry {
    pub scope: Scope,
    pub key: String,
    pub value: String,
}

pub struct ConfigEntryView {
    pub scope: Scope,
    pub key: Seq<char>,
    pub value: Seq<char>,
}

impl DeepView for ConfigEntry {
    type V = ConfigEntryView;

    open spec fn deep_view(&self) -> ConfigEntryView {
        ConfigEntryView { scope: self.scope, key: self.key@, value: self.value@ }
    }
}

/// The assignments made so far, oldest first. A later assignment to a key
/// replaces an earlier one.
#[derive(Debug, PartialEq, Eq)]
pub struct Config {
    pub entries: Vec<ConfigEntry>,
}

/// The value that a list of assignments leaves for a key.
pub open spec fn value_of(entries: Seq<ConfigEntryView>, scope: Scope, key: Seq<char>) -> Option<
    Seq<char>,
>
    decreases entries.len(),
{
    if entries.len() == 0 {
        None
    } else if entries.last().scope == scope && entries.last().key == key {
        Some(entries.last().value)
    } else {
        value_of(entries.drop_last(), scope, key)
    }
}

/// The settings as a map from scope and key to value.
pub type Settings = Map<(Scope, Seq<char>), Seq<char>>;

/// The value of a key in a map of settings, if it is set.
pub open spec fn setting(settings: Settings, scope: Scope, key: Seq<char>) -> Option<Seq<char>> {
    if settings.contains_key((scope, key)) {
        Some(settings[(scope, key)])
    } else {
        None
    }
}

/// The settings that a list of assignments leaves.
pub open spec fn settings_of(entries: Seq<ConfigEntryView>) -> Settings {
    Map::new(
        |k: (Scope, Seq<char>)| value_of(entries, k.0, k.1) is Some,
        |k: (Scope, Seq<char>)| value_of(entries, k.0, k.1).unwrap(),
    )
}

/// One more assignment sets its key and leaves the others as they are.
pub proof fn lemma_assignment_sets(entries: Seq<ConfigEntryView>, entry: ConfigEntryView)
    ensures
        settings_of(entries.push(entry)) == settings_of(entries).insert(
            (entry.scope, entry.key),
            entry.value,
        ),
{
    assert(entries.push(entry).drop_last() =~= entries);
    assert(settings_of(entries.push(entry)) =~= settings_of(entries).insert(
        (entry.scope, entry.key),
        entry.value,
    ));
}

impl View for Config {
    type V = Settings;

    open spec fn view(&self) -> Settings {
        settings_of(self.entries.deep_view())
    }
}

impl Config {
    /// A configuration in which nothing is set.
    pub fn new() -> (r: Config)
        ensures
            r@ == Map::<(Scope, Seq<char>), Seq<char>>::empty(),
            r.entries@.len() == 0,
    {
        let r = Config { entries: Vec::new() };
        proof {
            assert(r.entries.deep_view() =~= Seq::<ConfigEntryView>::empty());
            assert(r@ =~= Map::<(Scope, Seq<char>), Seq<char>>::empty());
        }
        r
    }

    /// The value of `key` at `scope`, if it is set.
    pub fn get(&self, scope: Scope, key: &str) -> (r: Option<String>)
        ensures
            r.deep_view() == setting(self@, scope, key@),
    {
        let ghost all = self.entries.deep_view();
        let mut i: usize = self.entries.len();
        proof {
            assert(all.take(i as int) =~= all);
        }
        while i > 0
            invariant
                i <= self.entries.len(),
                all == self.entries.deep_view(),
                all.len() == self.entries.len(),
                value_of(all, scope, key@) == value_of(all.take(i as int), scope, key@),
            decreases i,
        {
            proof {
                assert(all.take(i as int).drop_last() =~= all.take(i - 1));
                assert(all.take(i as int).last() == self.entries[i - 1].deep_view());
            }
            i -= 1;
            let entry = &self.entries[i];
            if entry.scope == scope && str_eq(entry.key.as_str(), key) {
                return Some(entry.value.clone());
            }
        }
        None
    }

    /// Sets `key` at `scope` to `value`.
    pub fn set(&mut self, scope: Scope, key: &str, value: &str)
        ensures
            final(self)@ == old(self)@.insert((scope, key@), value@),
            final(self).entries.deep_view() == old(self).entries.deep_view().push(
                ConfigEntryView { scope, key: key@, value: value@ },
            ),
    {
        let ghost before = self.entries.deep_view();
        let entry = ConfigEntry { scope, key: key.to_owned(), value: value.to_owned() };
        self.entries.push(entry);
        proof {
            let after = self.entries.deep_view();
            assert(after =~= before.push(entry.deep_view()));
            assert(after.drop_last() =~= before);
            assert(self@ =~= old(self)@.insert((scope, key@), value@));
        }
    }
}

} // verus!
