//! Quitting from the tray: the web cache is cleared once, then the app exits.

use vstd::prelude::*;

verus! {

/// Whether a quit is already under way.
pub struct QuitState {
    pub in_progress: bool,
}

/// A quit request: afterwards a quit is under way; the request starts it
/// only if none was under way before.
pub open spec fn spec_quit_request(in_progress: bool) -> (bool, bool) {
    (true, !in_progress)
}

impl QuitState {
    /// No quit under way.
    pub fn new() -> (res: QuitState)
        ensures
            !res.in_progress,
    {
        QuitState { in_progress: false }
    }

    /// Marks a quit as under way; true when this request is the one that
    /// starts it (so clears the cache and exits), false when one already runs.
    pub fn quit_after_clearing_cache(&mut self) -> (starts: bool)
        ensures
            (final(self).in_progress, starts) == spec_quit_request(old(self).in_progress),
    {
        let was = self.in_progress;
        self.in_progress = true;
        !was
    }
}

/// Of any two quit requests in a row, at most one starts the cache clearing
/// and exit; the first request after start-up does.
pub proof fn law_quit_starts_once(in_progress: bool)
    ensures
        !(spec_quit_request(in_progress).1 && spec_quit_request(spec_quit_request(in_progress).0).1),
        spec_quit_request(false).1,
{
}

} // verus!
