//! User settings: whether closing the main window hides it.

use vstd::prelude::*;

verus! {

/// Name of the settings file in the app's configuration directory.
pub const SETTINGS_FILE_NAME: &'static str = "settings.json";

/// The settings the user can change from the tray.
#[derive(Debug, Clone, Copy)]
pub struct AppSettings {
    /// Closing the main window hides it instead of quitting.
    pub hide_on_close: bool,
}

impl Default for AppSettings {
    /// Closing hides the window.
    fn default() -> (res: AppSettings)
        ensures
            res.hide_on_close,
    {
        AppSettings { hide_on_close: true }
    }
}

/// The settings in effect: the stored ones when they could be read and
/// parsed, the defaults otherwise.
pub fn load_settings(stored: Option<AppSettings>) -> (res: AppSettings)
    ensures
        res.hide_on_close == match stored {
            Some(s) => s.hide_on_close,
            None => true,
        },
{
    match stored {
        Some(s) => s,
        None => AppSettings::default(),
    }
}

/// Whether closing hides the window; `None` stands for settings that cannot
/// be read (a poisoned lock), in which case the window hides.
pub fn is_hide_on_close_enabled(settings: Option<&AppSettings>) -> (res: bool)
    ensures
        res == spec_hide_on_close(match settings {
            Some(s) => Some(*s),
            None => None,
        }),
{
    match settings {
        Some(s) => s.hide_on_close,
        None => true,
    }
}

/// Changes the setting and gives the settings to save.
pub fn set_hide_on_close_enabled(settings: &mut AppSettings, enabled: bool) -> (snapshot: AppSettings)
    ensures
        final(settings).hide_on_close == enabled,
        snapshot.hide_on_close == enabled,
{
    settings.hide_on_close = enabled;
    AppSettings { hide_on_close: settings.hide_on_close }
}

/// The value [`is_hide_on_close_enabled`] gives for these settings.
pub open spec fn spec_hide_on_close(settings: Option<AppSettings>) -> bool {
    match settings {
        Some(s) => s.hide_on_close,
        None => true,
    }
}

/// What the tray sets is what the close handler reads afterwards; and when
/// no settings can be read, closing hides the window.
pub proof fn law_setting_reads_back(enabled: bool)
    ensures
        spec_hide_on_close(Some(AppSettings { hide_on_close: enabled })) == enabled,
        spec_hide_on_close(None),
{
}

} // verus!
