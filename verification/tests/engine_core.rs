use finalengine::engine_core::{AppInfo, EngineApp, EngineClock, EngineError, EnginePhase};

#[test]
fn app_start_transitions_to_running() {
    let mut app = EngineApp::new(AppInfo::new("test", "0.1.0"));

    app.start().unwrap();

    assert_eq!(app.phase(), EnginePhase::Running);
}

#[test]
fn double_start_is_rejected() {
    let mut app = EngineApp::new(AppInfo::new("test", "0.1.0"));

    app.start().unwrap();

    assert!(app.start().is_err());
}

#[test]
fn new_app_is_created_with_its_info() {
    let app = EngineApp::new(AppInfo::new("FinalEngine", "0.1.0"));
    assert_eq!(app.phase(), EnginePhase::Created);
    assert_eq!(app.info().name, "FinalEngine");
    assert_eq!(app.info().version, "0.1.0");
    assert_eq!(app.frames(), 0);
}

#[test]
fn second_start_reports_already_running_and_keeps_state() {
    let mut app = EngineApp::new(AppInfo::new("test", "0.1.0"));
    app.start().unwrap();
    app.record_frame();
    let error = app.start().unwrap_err();
    let EngineError::Message(text) = &error;
    assert_eq!(text, "engine is already running");
    assert_eq!(error.message(), "engine is already running");
    assert_eq!(app.phase(), EnginePhase::Running);
    assert_eq!(app.frames(), 1);
}

#[test]
fn stopped_engine_starts_again_with_a_fresh_clock() {
    let mut app = EngineApp::new(AppInfo::new("test", "0.1.0"));
    app.start().unwrap();
    app.record_frame();
    app.record_frame();
    app.stop();
    assert_eq!(app.phase(), EnginePhase::Stopped);
    assert_eq!(app.frames(), 2);
    app.start().unwrap();
    assert_eq!(app.phase(), EnginePhase::Running);
    assert_eq!(app.frames(), 0);
}

#[test]
fn stop_from_created_stops() {
    let mut app = EngineApp::new(AppInfo::new("test", "0.1.0"));
    app.stop();
    assert_eq!(app.phase(), EnginePhase::Stopped);
}

#[test]
fn clock_counts_frames_and_links_instants() {
    let mut clock = EngineClock::new();
    let first = clock.record_frame();
    let second = clock.record_frame();
    assert_eq!(first.frame_index, 1);
    assert_eq!(second.frame_index, 2);
    assert_eq!(second.previous_frame_at, first.now);
    assert_eq!(first.started_at, second.started_at);
    assert!(second.now >= first.now);
    clock.reset();
    let after_reset = clock.record_frame();
    assert_eq!(after_reset.frame_index, 1);
}

#[test]
fn default_clock_has_no_frames() {
    let mut clock = EngineClock::default();
    assert_eq!(clock.record_frame().frame_index, 1);
}
