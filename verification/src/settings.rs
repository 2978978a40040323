//! Configuration state shared by every pipeline stage: an optional override
//! for the watched directory and a flag that decides whether extracted text
//! is automatically sent for an explanation.

use vstd::prelude::*;

verus! {

/// The pipeline's configuration: an optional watch-directory override and
/// the auto-explain flag. An absent directory is itself valid state (the
/// watcher then resolves a platform default), not an error.
#[derive(Clone, Debug)]
pub struct Settings {
    pub screenshots_dir: Option<String>,
    pub auto_prompt: bool,
}

/// The mathematical value of a [`Settings`]: the directory override as a
/// character sequence, and the flag.
pub struct SettingsView {
    pub screenshots_dir: Option<Seq<char>>,
    pub auto_prompt: bool,
}

impl View for Settings {
    type V = SettingsView;

    open spec fn view(&self) -> SettingsView {
        SettingsView {
            screenshots_dir: match self.screenshots_dir {
                Some(d) => Some(d@),
                None => None,
            },
            auto_prompt: self.auto_prompt,
        }
    }
}

/// The configuration a process starts with: no directory override, and
/// auto-explain switched on.
pub open spec fn default_settings() -> SettingsView {
    SettingsView { screenshots_dir: None, auto_prompt: true }
}

impl Default for Settings {
    /// Returns the startup configuration.
    fn default() -> (r: Self)
        ensures
            r@ == default_settings(),
    {
        Settings { screenshots_dir: None, auto_prompt: true }
    }
}

impl Settings {
    /// A field-for-field copy whose value equals this one's.
    pub fn snapshot(&self) -> (r: Settings)
        ensures
            r@ == self@,
    {
        Settings {
            screenshots_dir: match &self.screenshots_dir {
                Some(d) => Some(d.clone()),
                None => None,
            },
            auto_prompt: self.auto_prompt,
        }
    }
}

/// The store's state after `set(s)`: exactly `s`, whatever was there before.
pub open spec fn store_after_set(previous: SettingsView, s: SettingsView) -> SettingsView {
    s
}

/// What `get` reads from a store in state `st`: the state itself.
pub open spec fn store_read(st: SettingsView) -> SettingsView {
    st
}

/// Holds the current configuration. `get` hands out a snapshot copy, never
/// a live reference; `set` replaces the whole value at once. The embedding
/// application guards a store with a lock when several threads share it, so
/// a reader only ever observes a value that some single `set` wrote.
pub struct SettingsStore {
    current: Settings,
}

impl View for SettingsStore {
    type V = SettingsView;

    closed spec fn view(&self) -> SettingsView {
        self.current@
    }
}

impl SettingsStore {
    /// A fresh store holding the startup configuration.
    pub fn new() -> (r: SettingsStore)
        ensures
            r@ == default_settings(),
    {
        SettingsStore { current: Settings::default() }
    }

    /// A snapshot copy of the current configuration.
    pub fn get(&self) -> (r: Settings)
        ensures
            r@ == store_read(self@),
    {
        self.current.snapshot()
    }

    /// Replaces the configuration; later reads by any component see `s`.
    pub fn set(&mut self, s: Settings)
        ensures
            final(self)@ == store_after_set(old(self)@, s@),
    {
        self.current = s;
    }
}

/// A `set` followed by a `get` returns the exact value that was set,
/// whatever the store held before.
pub proof fn lemma_set_then_get(previous: SettingsView, s: SettingsView)
    ensures
        store_read(store_after_set(previous, s)) == s,
{
}

} // verus!
