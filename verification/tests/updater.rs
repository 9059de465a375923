use unofficial_messenger_next::updater::{
    progress_script, CheckStep, DownloadProgress, UpdateInfo, UpdateRecord, UpdateState,
    UPDATE_CHECK_INTERVAL_MS,
};

fn record() -> UpdateRecord {
    UpdateRecord {
        current_version: "0.1.5".to_string(),
        version: "0.1.6".to_string(),
        body: Some("Fixes".to_string()),
    }
}

fn respond(step: CheckStep) -> UpdateInfo {
    match step {
        CheckStep::Respond(info) => info,
        CheckStep::Run => panic!("expected an answer, not a check"),
    }
}

fn is_run(step: &CheckStep) -> bool {
    matches!(step, CheckStep::Run)
}

#[test]
fn unavailable_info() {
    let info = UpdateInfo::unavailable("1.0.0".to_string(), true);
    assert!(!info.available && info.checking && !info.deferred);
    assert_eq!(info.current_version, "1.0.0");
    assert_eq!(info.version, None);
    assert_eq!(info.notes, None);
}

#[test]
fn available_info() {
    let info = UpdateInfo::available(&record(), true);
    assert!(info.available && !info.checking && info.deferred);
    assert_eq!(info.current_version, "0.1.5");
    assert_eq!(info.version.as_deref(), Some("0.1.6"));
    assert_eq!(info.notes.as_deref(), Some("Fixes"));
}

#[test]
fn only_main_window_checks() {
    let mut state = UpdateState::new();
    let info = respond(state.begin_update_check("messenger-popup-1", 0, "0.1.5"));
    assert!(!info.available && !info.checking);
    assert!(!state.checking && state.last_check_started.is_none());
}

#[test]
fn found_update_is_remembered() {
    let mut state = UpdateState::new();
    assert!(is_run(&state.begin_update_check("main", 1_000, "0.1.5")));
    assert!(state.checking);
    let info = state.finish_update_check(Ok(Some(record())), "0.1.5").expect("info");
    assert!(info.available && !info.deferred);
    assert!(!state.checking);
    let again = respond(state.begin_update_check("main", 1_000 + 10 * UPDATE_CHECK_INTERVAL_MS, "0.1.5"));
    assert!(again.available);
    assert_eq!(again.version.as_deref(), Some("0.1.6"));
}

#[test]
fn checks_are_at_most_hourly() {
    let mut state = UpdateState::new();
    assert!(is_run(&state.begin_update_check("main", 5_000, "0.1.5")));
    let info = state.finish_update_check(Ok(None), "0.1.5").expect("info");
    assert!(!info.available && !info.checking);
    let soon = respond(state.begin_update_check("main", 5_000 + UPDATE_CHECK_INTERVAL_MS - 1, "0.1.5"));
    assert!(!soon.available && !soon.checking);
    assert!(is_run(&state.begin_update_check("main", 5_000 + UPDATE_CHECK_INTERVAL_MS, "0.1.5")));
    assert_eq!(state.last_check_started, Some(5_000 + UPDATE_CHECK_INTERVAL_MS));
}

#[test]
fn running_check_is_reported() {
    let mut state = UpdateState::new();
    assert!(is_run(&state.begin_update_check("main", 0, "0.1.5")));
    let info = respond(state.begin_update_check("main", 1, "0.1.5"));
    assert!(info.checking && !info.available);
}

#[test]
fn failed_check_reports_reason() {
    let mut state = UpdateState::new();
    assert!(is_run(&state.begin_update_check("main", 0, "0.1.5")));
    let error = state.finish_update_check(Err("offline".to_string()), "0.1.5").err();
    assert_eq!(error.as_deref(), Some("Could not check for updates: offline"));
    assert!(!state.checking);
}

#[test]
fn defer_needs_an_update() {
    let mut state = UpdateState::new();
    assert_eq!(state.defer_update(), Err("No update is available".to_string()));
    state.available = Some(record());
    assert_eq!(state.defer_update(), Ok("0.1.6".to_string()));
    assert!(state.deferred);
    let info = respond(state.begin_update_check("main", 0, "0.1.5"));
    assert!(info.deferred);
}

#[test]
fn install_runs_once() {
    let mut state = UpdateState::new();
    assert_eq!(state.begin_install().err().as_deref(), Some("No update is available"));
    assert!(!state.installing);
    state.available = Some(record());
    let update = state.begin_install().expect("starts");
    assert_eq!(update.version, "0.1.6");
    assert_eq!(state.begin_install().err().as_deref(), Some("An update is already being installed"));
    assert_eq!(
        state.finish_install(Err("disk full".to_string())),
        Err("Could not install the update: disk full".to_string())
    );
    assert!(!state.installing);
    assert!(state.begin_install().is_ok());
    assert_eq!(state.finish_install(Ok(())), Ok(()));
    assert!(state.installing);
}

#[test]
fn download_progress_counts() {
    let mut progress = DownloadProgress { downloaded: 0 };
    assert_eq!(progress.record_chunk(10), 10);
    assert_eq!(progress.record_chunk(5), 15);
    assert_eq!(progress.downloaded, 15);
    let mut near_end = DownloadProgress { downloaded: u64::MAX - 1 };
    assert_eq!(near_end.record_chunk(3), u64::MAX);
    assert_eq!(near_end.downloaded, 1);
}

#[test]
fn progress_script_text() {
    assert_eq!(
        progress_script("{\"stage\":\"downloading\"}"),
        "window.__TAURI_MESSENGER_UPDATE_PROGRESS__?.({\"stage\":\"downloading\"})"
    );
}
