//! The update check and install state machine: at most one check per hour,
//! a found update is remembered and reported until it is installed, the user
//! may defer it, and only one installation runs at a time.

use vstd::prelude::*;

use crate::text::{chars_eq, chars_of, join_text, string_of};
use crate::web_url::{copy_opt_string, opt_view};

verus! {

/// Least time between the starts of two update checks, in milliseconds.
pub const UPDATE_CHECK_INTERVAL_MS: u64 = 60 * 60 * 1000;

/// An update that the update service offered.
pub struct UpdateRecord {
    /// The version that is running.
    pub current_version: String,
    /// The version on offer.
    pub version: String,
    /// Release notes, if any.
    pub body: Option<String>,
}

/// Model of an [`UpdateRecord`].
pub struct UpdateRecordView {
    pub current_version: Seq<char>,
    pub version: Seq<char>,
    pub body: Option<Seq<char>>,
}

impl View for UpdateRecord {
    type V = UpdateRecordView;

    open spec fn view(&self) -> UpdateRecordView {
        UpdateRecordView {
            current_version: self.current_version@,
            version: self.version@,
            body: opt_view(self.body),
        }
    }
}

impl UpdateRecord {
    /// A copy of this record.
    pub fn copy(&self) -> (res: UpdateRecord)
        ensures
            res@ == self@,
    {
        UpdateRecord {
            current_version: self.current_version.clone(),
            version: self.version.clone(),
            body: copy_opt_string(&self.body),
        }
    }
}

/// What the page is told about updates.
pub struct UpdateInfo {
    pub available: bool,
    pub checking: bool,
    pub deferred: bool,
    pub current_version: String,
    pub version: Option<String>,
    pub notes: Option<String>,
}

/// Model of an [`UpdateInfo`].
pub struct UpdateInfoView {
    pub available: bool,
    pub checking: bool,
    pub deferred: bool,
    pub current_version: Seq<char>,
    pub version: Option<Seq<char>>,
    pub notes: Option<Seq<char>>,
}

impl View for UpdateInfo {
    type V = UpdateInfoView;

    open spec fn view(&self) -> UpdateInfoView {
        UpdateInfoView {
            available: self.available,
            checking: self.checking,
            deferred: self.deferred,
            current_version: self.current_version@,
            version: opt_view(self.version),
            notes: opt_view(self.notes),
        }
    }
}

/// "No update" for the running version.
pub open spec fn spec_unavailable(current_version: Seq<char>, checking: bool) -> UpdateInfoView {
    UpdateInfoView {
        available: false,
        checking,
        deferred: false,
        current_version,
        version: None,
        notes: None,
    }
}

/// "This update is available".
pub open spec fn spec_available(update: UpdateRecordView, deferred: bool) -> UpdateInfoView {
    UpdateInfoView {
        available: true,
        checking: false,
        deferred,
        current_version: update.current_version,
        version: Some(update.version),
        notes: update.body,
    }
}

impl UpdateInfo {
    /// No update is available for `current_version`; `checking` tells whether a
    /// check is under way.
    pub fn unavailable(current_version: String, checking: bool) -> (res: UpdateInfo)
        ensures
            res@ == spec_unavailable(current_version@, checking),
    {
        UpdateInfo {
            available: false,
            checking,
            deferred: false,
            current_version,
            version: None,
            notes: None,
        }
    }

    /// `update` is available; `deferred` tells whether the user put it off.
    pub fn available(update: &UpdateRecord, deferred: bool) -> (res: UpdateInfo)
        ensures
            res@ == spec_available(update@, deferred),
    {
        UpdateInfo {
            available: true,
            checking: false,
            deferred,
            current_version: update.current_version.clone(),
            version: Some(update.version.clone()),
            notes: copy_opt_string(&update.body),
        }
    }
}

/// What the app remembers about updates between commands.
pub struct UpdateState {
    /// The update found by the last successful check.
    pub available: Option<UpdateRecord>,
    /// When the last check started (milliseconds on a monotonic clock).
    pub last_check_started: Option<u64>,
    /// A check is under way.
    pub checking: bool,
    /// The user put the available update off.
    pub deferred: bool,
    /// An installation is under way.
    pub installing: bool,
}

/// Model of an [`UpdateState`].
pub struct UpdateStateView {
    pub available: Option<UpdateRecordView>,
    pub last_check_started: Option<u64>,
    pub checking: bool,
    pub deferred: bool,
    pub installing: bool,
}

/// The view of an optional update record.
pub open spec fn opt_record_view(r: Option<UpdateRecord>) -> Option<UpdateRecordView> {
    match r {
        Some(u) => Some(u@),
        None => None,
    }
}

impl View for UpdateState {
    type V = UpdateStateView;

    open spec fn view(&self) -> UpdateStateView {
        UpdateStateView {
            available: opt_record_view(self.available),
            last_check_started: self.last_check_started,
            checking: self.checking,
            deferred: self.deferred,
            installing: self.installing,
        }
    }
}

/// The state at start-up: nothing found, nothing under way.
pub open spec fn spec_initial_update_state() -> UpdateStateView {
    UpdateStateView {
        available: None,
        last_check_started: None,
        checking: false,
        deferred: false,
        installing: false,
    }
}

/// What a check request leads to right away.
pub enum CheckStep {
    /// Answer the page with this, without asking the update service.
    Respond(UpdateInfo),
    /// Ask the update service, then call [`UpdateState::finish_update_check`].
    Run,
}

/// Model of a [`CheckStep`].
pub enum CheckStepView {
    Respond(UpdateInfoView),
    Run,
}

/// The view of a [`CheckStep`].
pub open spec fn check_step_view(step: CheckStep) -> CheckStepView {
    match step {
        CheckStep::Respond(info) => CheckStepView::Respond(info@),
        CheckStep::Run => CheckStepView::Run,
    }
}

/// Milliseconds from `start` to `now` (zero if the clock reads earlier).
pub open spec fn elapsed_ms(start: u64, now: u64) -> int {
    if now >= start {
        now - start
    } else {
        0
    }
}

/// A check request from window `label` at time `now`: only the main window
/// checks; a known update is reported; a running check is reported as such;
/// a check that started less than an hour ago blocks a new one; otherwise the
/// start time is recorded and the service is asked.
pub open spec fn spec_begin_update_check(
    s: UpdateStateView,
    label: Seq<char>,
    now: u64,
    current_version: Seq<char>,
) -> (UpdateStateView, CheckStepView) {
    if label != "main"@ {
        (s, CheckStepView::Respond(spec_unavailable(current_version, false)))
    } else if s.available is Some {
        (s, CheckStepView::Respond(spec_available(s.available->0, s.deferred)))
    } else if s.checking {
        (s, CheckStepView::Respond(spec_unavailable(current_version, true)))
    } else if s.last_check_started matches Some(started) && elapsed_ms(started, now)
        < UPDATE_CHECK_INTERVAL_MS {
        (s, CheckStepView::Respond(spec_unavailable(current_version, false)))
    } else {
        (UpdateStateView { last_check_started: Some(now), checking: true, ..s }, CheckStepView::Run)
    }
}

/// The model of a check result: `Ok(Some(update))`, `Ok(None)` or an error text.
pub open spec fn check_result_view(r: Result<Option<UpdateRecord>, String>) -> Result<Option<UpdateRecordView>, Seq<char>> {
    match r {
        Ok(o) => Ok(opt_record_view(o)),
        Err(e) => Err(e@),
    }
}

/// The view of an answer to the page.
pub open spec fn info_result_view(r: Result<UpdateInfo, String>) -> Result<UpdateInfoView, Seq<char>> {
    match r {
        Ok(i) => Ok(i@),
        Err(e) => Err(e@),
    }
}

/// The end of a check: the check is over; a found update is remembered (not
/// deferred) and reported; no update is reported as such; a failure is
/// reported with its reason.
pub open spec fn spec_finish_update_check(
    s: UpdateStateView,
    result: Result<Option<UpdateRecordView>, Seq<char>>,
    current_version: Seq<char>,
) -> (UpdateStateView, Result<UpdateInfoView, Seq<char>>) {
    let s1 = UpdateStateView { checking: false, ..s };
    match result {
        Ok(Some(update)) => (
            UpdateStateView { available: Some(update), deferred: false, ..s1 },
            Ok(spec_available(update, false)),
        ),
        Ok(None) => (s1, Ok(spec_unavailable(current_version, false))),
        Err(e) => (s1, Err("Could not check for updates: "@ + e)),
    }
}

/// Putting the available update off.
pub open spec fn spec_defer_update(s: UpdateStateView) -> (UpdateStateView, Result<Seq<char>, Seq<char>>) {
    match s.available {
        Some(update) => (UpdateStateView { deferred: true, ..s }, Ok(update.version)),
        None => (s, Err("No update is available"@)),
    }
}

/// The start of an installation: refused while one runs or when there is
/// nothing to install; otherwise marked as running.
pub open spec fn spec_begin_install(s: UpdateStateView) -> (UpdateStateView, Result<UpdateRecordView, Seq<char>>) {
    if s.installing {
        (s, Err("An update is already being installed"@))
    } else {
        match s.available {
            Some(update) => (UpdateStateView { installing: true, ..s }, Ok(update)),
            None => (s, Err("No update is available"@)),
        }
    }
}

/// The end of an installation: a failure ends it and is reported; success
/// leaves it marked as running until the app restarts.
pub open spec fn spec_finish_install(s: UpdateStateView, result: Result<(), Seq<char>>) -> (UpdateStateView, Result<(), Seq<char>>) {
    match result {
        Ok(()) => (s, Ok(())),
        Err(e) => (UpdateStateView { installing: false, ..s }, Err("Could not install the update: "@ + e)),
    }
}

/// The view of a result that carries a record.
pub open spec fn record_result_view(r: Result<UpdateRecord, String>) -> Result<UpdateRecordView, Seq<char>> {
    match r {
        Ok(u) => Ok(u@),
        Err(e) => Err(e@),
    }
}

/// The view of a result that carries a text.
pub open spec fn text_result_view(r: Result<String, String>) -> Result<Seq<char>, Seq<char>> {
    match r {
        Ok(t) => Ok(t@),
        Err(e) => Err(e@),
    }
}

/// The view of a result without a value.
pub open spec fn unit_result_view(r: Result<(), String>) -> Result<(), Seq<char>> {
    match r {
        Ok(()) => Ok(()),
        Err(e) => Err(e@),
    }
}

impl UpdateState {
    /// Nothing found, nothing under way.
    pub fn new() -> (res: UpdateState)
        ensures
            res@ == spec_initial_update_state(),
    {
        UpdateState { available: None, last_check_started: None, checking: false, deferred: false, installing: false }
    }

    /// Handles a check request from window `window_label` at time `now_ms`.
    pub fn begin_update_check(&mut self, window_label: &str, now_ms: u64, current_version: &str) -> (res: CheckStep)
        ensures
            (final(self)@, check_step_view(res)) == spec_begin_update_check(
                old(self)@,
                window_label@,
                now_ms,
                current_version@,
            ),
    {
        if !chars_eq(&chars_of(window_label), &chars_of("main")) {
            return CheckStep::Respond(UpdateInfo::unavailable(string_of(&chars_of(current_version)), false));
        }
        if let Some(update) = &self.available {
            return CheckStep::Respond(UpdateInfo::available(update, self.deferred));
        }
        if self.checking {
            return CheckStep::Respond(UpdateInfo::unavailable(string_of(&chars_of(current_version)), true));
        }
        if let Some(started) = self.last_check_started {
            let elapsed: u64 = now_ms.saturating_sub(started);
            if elapsed < UPDATE_CHECK_INTERVAL_MS {
                return CheckStep::Respond(UpdateInfo::unavailable(string_of(&chars_of(current_version)), false));
            }
        }
        self.last_check_started = Some(now_ms);
        self.checking = true;
        CheckStep::Run
    }

    /// Handles the outcome of asking the update service.
    pub fn finish_update_check(
        &mut self,
        result: Result<Option<UpdateRecord>, String>,
        current_version: &str,
    ) -> (res: Result<UpdateInfo, String>)
        ensures
            (final(self)@, info_result_view(res)) == spec_finish_update_check(
                old(self)@,
                check_result_view(result),
                current_version@,
            ),
    {
        self.checking = false;
        match result {
            Ok(Some(update)) => {
                let info = UpdateInfo::available(&update, false);
                self.available = Some(update);
                self.deferred = false;
                Ok(info)
            },
            Ok(None) => Ok(UpdateInfo::unavailable(string_of(&chars_of(current_version)), false)),
            Err(error) => Err(join_text("Could not check for updates: ", error.as_str())),
        }
    }

    /// Puts the available update off; gives its version for the tray.
    pub fn defer_update(&mut self) -> (res: Result<String, String>)
        ensures
            (final(self)@, text_result_view(res)) == spec_defer_update(old(self)@),
    {
        match &self.available {
            Some(update) => {
                let version = update.version.clone();
                self.deferred = true;
                Ok(version)
            },
            None => Err(string_of(&chars_of("No update is available"))),
        }
    }

    /// Starts installing the available update; gives the update to install.
    pub fn begin_install(&mut self) -> (res: Result<UpdateRecord, String>)
        ensures
            (final(self)@, record_result_view(res)) == spec_begin_install(old(self)@),
    {
        if self.installing {
            return Err(string_of(&chars_of("An update is already being installed")));
        }
        match &self.available {
            Some(update) => {
                let copy = update.copy();
                self.installing = true;
                Ok(copy)
            },
            None => Err(string_of(&chars_of("No update is available"))),
        }
    }

    /// Handles the outcome of downloading and installing.
    pub fn finish_install(&mut self, result: Result<(), String>) -> (res: Result<(), String>)
        ensures
            (final(self)@, unit_result_view(res)) == spec_finish_install(old(self)@, unit_result_view(result)),
    {
        match result {
            Ok(()) => Ok(()),
            Err(error) => {
                self.installing = false;
                Err(join_text("Could not install the update: ", error.as_str()))
            },
        }
    }
}

/// Bytes downloaded so far, as the progress callback counts them.
pub struct DownloadProgress {
    pub downloaded: u64,
}

impl DownloadProgress {
    /// Counts a chunk of `chunk_length` bytes and gives the total to report.
    /// The stored counter wraps around like an atomic `fetch_add`; the
    /// reported total saturates.
    pub fn record_chunk(&mut self, chunk_length: u64) -> (reported: u64)
        ensures
            final(self).downloaded == (old(self).downloaded as int + chunk_length as int) % 0x1_0000_0000_0000_0000,
            reported == (if old(self).downloaded as int + chunk_length as int > u64::MAX {
                u64::MAX as int
            } else {
                old(self).downloaded as int + chunk_length as int
            }),
    {
        let before: u64 = self.downloaded;
        self.downloaded = before.wrapping_add(chunk_length);
        before.saturating_add(chunk_length)
    }
}

/// The script that hands a progress report (JSON) to the page.
pub fn progress_script(payload: &str) -> (res: String)
    ensures
        res@ == "window.__TAURI_MESSENGER_UPDATE_PROGRESS__?.("@ + payload@ + ")"@,
{
    let head = join_text("window.__TAURI_MESSENGER_UPDATE_PROGRESS__?.(", payload);
    join_text(head.as_str(), ")")
}

// ---------------------------------------------------------------------------
// Laws
// ---------------------------------------------------------------------------

/// The first check request from the main window after start-up asks the
/// update service.
pub proof fn law_first_check_runs(now: u64, current_version: Seq<char>)
    ensures
        spec_begin_update_check(spec_initial_update_state(), "main"@, now, current_version).1
            == CheckStepView::Run,
{
}

/// Once a check found an update, every later check request from the main
/// window reports that update and does not ask the service again.
pub proof fn law_found_update_is_reported(
    s: UpdateStateView,
    update: UpdateRecordView,
    now: u64,
    current_version: Seq<char>,
    other_version: Seq<char>,
)
    ensures
        ({
            let s1 = spec_finish_update_check(s, Ok(Some(update)), current_version).0;
            spec_begin_update_check(s1, "main"@, now, other_version) == (
                s1,
                CheckStepView::Respond(spec_available(update, false)),
            )
        }),
{
}

/// Two checks never start less than an hour apart: after a check started at
/// `started` and ended without finding an update, a request before an hour
/// has passed is answered without asking the service.
pub proof fn law_checks_are_hourly(
    s: UpdateStateView,
    started: u64,
    now: u64,
    result: Result<Option<UpdateRecordView>, Seq<char>>,
    current_version: Seq<char>,
)
    requires
        spec_begin_update_check(s, "main"@, started, current_version).1 == CheckStepView::Run,
        result is Err || result == Ok::<Option<UpdateRecordView>, Seq<char>>(None),
        started <= now,
        now - started < UPDATE_CHECK_INTERVAL_MS,
    ensures
        ({
            let s1 = spec_begin_update_check(s, "main"@, started, current_version).0;
            let s2 = spec_finish_update_check(s1, result, current_version).0;
            spec_begin_update_check(s2, "main"@, now, current_version) == (
                s2,
                CheckStepView::Respond(spec_unavailable(current_version, false)),
            )
        }),
{
}

/// While a check runs, further requests are told so and start nothing.
pub proof fn law_one_check_at_a_time(s: UpdateStateView, t1: u64, t2: u64, current_version: Seq<char>)
    requires
        spec_begin_update_check(s, "main"@, t1, current_version).1 == CheckStepView::Run,
    ensures
        ({
            let s1 = spec_begin_update_check(s, "main"@, t1, current_version).0;
            spec_begin_update_check(s1, "main"@, t2, current_version) == (
                s1,
                CheckStepView::Respond(spec_unavailable(current_version, true)),
            )
        }),
{
}

/// Deferring an update is remembered: the next check reports it as deferred.
pub proof fn law_deferred_update_stays_deferred(s: UpdateStateView, now: u64, current_version: Seq<char>)
    requires
        s.available is Some,
    ensures
        ({
            let s1 = spec_defer_update(s).0;
            spec_begin_update_check(s1, "main"@, now, current_version) == (
                s1,
                CheckStepView::Respond(spec_available(s.available->0, true)),
            )
        }),
{
}

/// Only one installation runs at a time.
pub proof fn law_one_install_at_a_time(s: UpdateStateView)
    requires
        spec_begin_install(s).1 is Ok,
    ensures
        spec_begin_install(spec_begin_install(s).0) == (
            spec_begin_install(s).0,
            Err::<UpdateRecordView, Seq<char>>("An update is already being installed"@),
        ),
{
}

/// A failed installation can be retried: it hands out the same update again.
pub proof fn law_failed_install_can_retry(s: UpdateStateView, reason: Seq<char>)
    requires
        spec_begin_install(s).1 is Ok,
    ensures
        ({
            let s1 = spec_begin_install(s).0;
            let s2 = spec_finish_install(s1, Err(reason)).0;
            spec_begin_install(s2).1 == spec_begin_install(s).1
        }),
{
}

} // verus!
