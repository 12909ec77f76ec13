//! Application settings and the rules that combine stored, in-memory and
//! submitted settings.
use vstd::prelude::*;

verus! {

/// The application's settings.
#[derive(Clone, Debug)]
pub struct Settings {
    /// Load the most recently used profile when the application opens.
    pub load_most_recent_profile_on_open: bool,
    /// Path of the most recently loaded or saved profile.
    pub most_recent_profile: Option<String>,
    /// Keep the main window above other windows.
    pub always_on_top: bool,
    /// Resize the window to fit its content.
    pub auto_resize: bool,
}

/// The default settings: every flag on, no recent profile.
pub open spec fn is_default_settings(s: Settings) -> bool {
    &&& s.load_most_recent_profile_on_open
    &&& s.most_recent_profile is None
    &&& s.always_on_top
    &&& s.auto_resize
}

impl Settings {
    /// The default settings.
    pub fn new() -> (r: Self)
        ensures
            is_default_settings(r),
    {
        Settings {
            load_most_recent_profile_on_open: true,
            most_recent_profile: None,
            always_on_top: true,
            auto_resize: true,
        }
    }

    /// Whether the main window is kept above other windows.
    pub fn always_on_top(&self) -> (r: bool)
        ensures
            r == self.always_on_top,
    {
        self.always_on_top
    }

    /// These settings with `path` as the most recent profile.
    pub fn with_most_recent_profile(&self, path: String) -> (r: Settings)
        ensures
            r.load_most_recent_profile_on_open == self.load_most_recent_profile_on_open,
            r.most_recent_profile == Some(path),
            r.always_on_top == self.always_on_top,
            r.auto_resize == self.auto_resize,
    {
        Settings {
            load_most_recent_profile_on_open: self.load_most_recent_profile_on_open,
            most_recent_profile: Some(path),
            always_on_top: self.always_on_top,
            auto_resize: self.auto_resize,
        }
    }

    /// The profile to open at start-up: the most recent one, when the
    /// settings ask for it and there is one.
    pub fn initial_profile_path(&self) -> (r: Option<String>)
        ensures
            match r {
                Some(p) => self.load_most_recent_profile_on_open
                    && self.most_recent_profile is Some
                    && p@ == self.most_recent_profile->0@,
                None => !self.load_most_recent_profile_on_open
                    || self.most_recent_profile is None,
            },
    {
        if self.load_most_recent_profile_on_open {
            match &self.most_recent_profile {
                Some(p) => Some(p.clone()),
                None => None,
            }
        } else {
            None
        }
    }
}

impl Default for Settings {
    fn default() -> (r: Self)
        ensures
            is_default_settings(r),
    {
        Settings::new()
    }
}

/// The settings read from storage, or the defaults when none could be read.
pub fn read_settings_or_default(read: Option<Settings>) -> (r: Settings)
    ensures
        match read {
            Some(s) => r == s,
            None => is_default_settings(r),
        },
{
    match read {
        Some(s) => s,
        None => Settings::new(),
    }
}

/// The settings to write when saving: the submitted ones, but with the most
/// recent profile that the application holds; the held settings when none
/// were submitted.
pub fn settings_to_save(held: Settings, submitted: Option<Settings>) -> (r: Settings)
    ensures
        match submitted {
            Some(s) => r == (Settings { most_recent_profile: held.most_recent_profile, ..s }),
            None => r == held,
        },
{
    match submitted {
        Some(s) => Settings {
            load_most_recent_profile_on_open: s.load_most_recent_profile_on_open,
            most_recent_profile: held.most_recent_profile,
            always_on_top: s.always_on_top,
            auto_resize: s.auto_resize,
        },
        None => held,
    }
}

} // verus!
