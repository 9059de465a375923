//! Starting with Windows: recognising a start-up launch, and what turning the
//! option on or off does. Elsewhere the option does not exist.

use vstd::prelude::*;

use crate::text::{chars_eq, chars_of, string_of};

verus! {

/// The argument the start-up shortcut passes to the app.
pub const STARTUP_ARGUMENT: &'static str = "--tauri-startup";

/// Name of the value that older versions wrote under the `Run` registry key.
pub const STARTUP_REGISTRY_VALUE: &'static str = "UnofficialMessenger";

/// File name of the shortcut in the Startup folder.
pub const STARTUP_SHORTCUT_FILE: &'static str = "Unofficial Messenger.lnk";

/// Delay before the page loads after a start-up launch, in milliseconds.
pub const STARTUP_LOAD_DELAY_MS: u64 = 8000;

/// The view of a list of strings.
pub open spec fn strings_view(v: Seq<String>) -> Seq<Seq<char>> {
    v.map_values(|s: String| s@)
}

/// The app was started by the start-up shortcut: on Windows, one of its
/// arguments is [`STARTUP_ARGUMENT`]; never elsewhere.
pub fn was_launched_from_windows_startup(on_windows: bool, args: &Vec<String>) -> (res: bool)
    ensures
        res == (on_windows && exists|i: int| 0 <= i < args@.len() && #[trigger] args@[i]@ == STARTUP_ARGUMENT@),
{
    if !on_windows {
        return false;
    }
    let marker = chars_of(STARTUP_ARGUMENT);
    let mut i: usize = 0;
    while i < args.len()
        invariant
            i <= args.len(),
            on_windows,
            marker@ == STARTUP_ARGUMENT@,
            forall|k: int| 0 <= k < i ==> #[trigger] args@[k]@ != STARTUP_ARGUMENT@,
        decreases args.len() - i,
    {
        if chars_eq(&chars_of(args[i].as_str()), &marker) {
            assert(args@[i as int]@ == STARTUP_ARGUMENT@);
            return true;
        }
        i = i + 1;
    }
    false
}

/// The working directory to switch to: the executable's directory after a
/// start-up launch (when it is known), nothing otherwise.
pub fn normalize_startup_working_directory(launched_from_startup: bool, executable_dir: Option<String>) -> (res: Option<String>)
    ensures
        launched_from_startup ==> res == executable_dir,
        !launched_from_startup ==> res is None,
{
    if !launched_from_startup {
        return None;
    }
    executable_dir
}

/// The option is on: on Windows, when the start-up shortcut exists or the
/// older registry entry is present; never elsewhere.
pub fn is_start_with_windows_enabled(on_windows: bool, shortcut_exists: bool, legacy_registry_entry: bool) -> (res: bool)
    ensures
        res == (on_windows && (shortcut_exists || legacy_registry_entry)),
{
    on_windows && (shortcut_exists || legacy_registry_entry)
}

/// One thing to do to the system when the option changes.
#[derive(PartialEq, Eq, Structural, Debug, Clone, Copy)]
pub enum StartupStep {
    /// Delete the older registry entry (its failure is ignored).
    RemoveLegacyRegistryEntry,
    /// Write the shortcut in the Startup folder.
    CreateShortcut,
    /// Delete the shortcut (a missing shortcut is fine).
    RemoveShortcut,
}

/// The steps that turn the option on or off, in order; elsewhere than on
/// Windows the request is refused.
pub fn set_start_with_windows(enabled: bool, on_windows: bool) -> (res: Result<Vec<StartupStep>, String>)
    ensures
        !on_windows ==> (res matches Err(e) && e@ == "start with Windows is only supported on Windows"@),
        on_windows ==> (res matches Ok(steps) && steps@ == seq![
            StartupStep::RemoveLegacyRegistryEntry,
            if enabled {
                StartupStep::CreateShortcut
            } else {
                StartupStep::RemoveShortcut
            },
        ]),
{
    if !on_windows {
        return Err(string_of(&chars_of("start with Windows is only supported on Windows")));
    }
    let mut steps: Vec<StartupStep> = Vec::new();
    steps.push(StartupStep::RemoveLegacyRegistryEntry);
    if enabled {
        steps.push(StartupStep::CreateShortcut);
    } else {
        steps.push(StartupStep::RemoveShortcut);
    }
    assert(steps@ =~= seq![
        StartupStep::RemoveLegacyRegistryEntry,
        if enabled {
            StartupStep::CreateShortcut
        } else {
            StartupStep::RemoveShortcut
        },
    ]);
    Ok(steps)
}

/// The outcome of deleting the shortcut: a shortcut that is already gone is
/// no error.
pub fn shortcut_removal_result(error: Option<(bool, String)>) -> (res: Result<(), String>)
    ensures
        match error {
            None => res is Ok,
            Some((not_found, text)) => if not_found {
                res is Ok
            } else {
                res matches Err(e) && e@ == text@
            },
        },
{
    match error {
        None => Ok(()),
        Some((not_found, text)) => if not_found {
            Ok(())
        } else {
            Err(text)
        },
    }
}

} // verus!
