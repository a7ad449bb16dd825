use ast::app::AppState;
use ast::control::{handle_event, handle_key, Effect, KeyOutcome};
use ast::events::{AppEvent, KeyCode};
use ast::handler::emulator::EmuCommand;
use ast::handler::logs::LogsCommand;
use ast::model::{AvdInfo, DeviceTarget, ScreenType, SearchMode, TargetType, TaskStatus};

fn emulator(serial: &str, model: &str) -> DeviceTarget {
    DeviceTarget {
        serial: serial.into(),
        state: "device".into(),
        target_type: TargetType::Emulator,
        product: Some("sdk_gphone64_x86_64".into()),
        model: Some(model.into()),
        device: None,
        transport_id: None,
        boot_completed: true,
    }
}

fn last_log(state: &AppState) -> String {
    state.status_logs.back().cloned().unwrap_or_default()
}

#[test]
fn quit_and_function_keys() {
    let mut state = AppState::default();
    assert_eq!(handle_key(&mut state, KeyCode::Char('q')), KeyOutcome::Quit);
    assert_eq!(handle_key(&mut state, KeyCode::Esc), KeyOutcome::Quit);
    assert_eq!(handle_key(&mut state, KeyCode::F(2)), KeyOutcome::Nothing);
    assert_eq!(state.screen_type, ScreenType::Build);
    assert_eq!(handle_key(&mut state, KeyCode::F(3)), KeyOutcome::Nothing);
    assert_eq!(state.screen_type, ScreenType::Logs);
    assert_eq!(handle_key(&mut state, KeyCode::F(1)), KeyOutcome::Nothing);
    assert_eq!(state.screen_type, ScreenType::Emu);
}

#[test]
fn search_editing_takes_every_key() {
    let mut state = AppState::default();
    state.screen_type = ScreenType::Logs;
    state.update_devices(vec![], vec![emulator("emulator-5554", "Pixel")]);
    assert_eq!(handle_key(&mut state, KeyCode::Char('/')), KeyOutcome::Nothing);
    assert_eq!(state.log_state.search_mode, SearchMode::Editing);
    assert_eq!(handle_key(&mut state, KeyCode::Char('q')), KeyOutcome::Nothing);
    assert_eq!(handle_key(&mut state, KeyCode::Char('x')), KeyOutcome::Nothing);
    assert_eq!(state.active_log_session().unwrap().search_query, "qx");
    handle_key(&mut state, KeyCode::Backspace);
    assert_eq!(state.active_log_session().unwrap().search_query, "q");
    handle_key(&mut state, KeyCode::Enter);
    assert_eq!(state.log_state.search_mode, SearchMode::Normal);
    assert_eq!(handle_key(&mut state, KeyCode::Char('q')), KeyOutcome::Quit);
}

#[test]
fn emulator_tab_asks_for_work() {
    let mut state = AppState::default();
    state.update_devices(
        vec![AvdInfo { name: "Pixel_6a".into(), is_running: false }],
        vec![emulator("emulator-5554", "Pixel_6a")],
    );
    assert_eq!(
        handle_key(&mut state, KeyCode::Enter),
        KeyOutcome::Emu(EmuCommand::LaunchEmulator { avd_name: "Pixel_6a".into() })
    );
    handle_key(&mut state, KeyCode::Tab);
    assert_eq!(
        handle_key(&mut state, KeyCode::Char('k')),
        KeyOutcome::Emu(EmuCommand::StopEmulator { serial: "emulator-5554".into() })
    );
}

#[test]
fn logs_tab_toggles_stream() {
    let mut state = AppState::default();
    state.screen_type = ScreenType::Logs;
    state.update_devices(vec![], vec![emulator("emulator-5554", "Pixel")]);
    assert_eq!(
        handle_key(&mut state, KeyCode::Char('s')),
        KeyOutcome::Logs(LogsCommand::ToggleStream { serial: "emulator-5554".into() })
    );
}

#[test]
fn apk_deployed_opens_logs_and_filters_package() {
    let mut state = AppState::default();
    state.update_devices(vec![], vec![emulator("emulator-5554", "Pixel_6a")]);
    let effects = handle_event(
        &mut state,
        AppEvent::ApkDeployed {
            serial: "emulator-5554".into(),
            package_name: Some("com.example.flocky".into()),
            version_name: Some("1.0".into()),
            version_code: Some("3".into()),
        },
        0,
    );
    assert_eq!(
        effects,
        vec![
            Effect::ResolveAppPid {
                serial: "emulator-5554".into(),
                package: "com.example.flocky".into()
            },
            Effect::StartLogcatStream { serial: "emulator-5554".into() },
        ]
    );
    assert_eq!(state.screen_type, ScreenType::Logs);
    assert_eq!(state.log_state.active_device_serial.as_deref(), Some("emulator-5554"));
    let session = state.active_log_session().unwrap();
    assert_eq!(session.search_query, "package:com.example.flocky");
    assert_eq!(session.app_package.as_deref(), Some("com.example.flocky"));
    assert_eq!(
        last_log(&state),
        "APK deployed (v1.0, code 3) to 'emulator-5554'. Streaming logcat in Logs tab."
    );
}

#[test]
fn apk_deployed_without_package() {
    let mut state = AppState::default();
    let effects = handle_event(
        &mut state,
        AppEvent::ApkDeployed {
            serial: "R58M".into(),
            package_name: None,
            version_name: None,
            version_code: None,
        },
        0,
    );
    assert_eq!(effects, vec![Effect::StartLogcatStream { serial: "R58M".into() }]);
    assert_eq!(state.active_log_session().unwrap().display_name, "R58M");
    assert_eq!(state.active_log_session().unwrap().search_query, "");
    assert_eq!(last_log(&state), "APK deployed to 'R58M'. Streaming logcat in Logs tab.");
}

#[test]
fn pid_resolved_is_recorded() {
    let mut state = AppState::default();
    state.get_or_create_log_session("emulator-5554", "Pixel");
    let effects = handle_event(
        &mut state,
        AppEvent::AppPidResolved {
            serial: "emulator-5554".into(),
            package_name: "com.example.flocky".into(),
            pid: 28083,
        },
        0,
    );
    assert!(effects.is_empty());
    assert_eq!(state.log_state.sessions[0].app_pid, Some(28083));
    assert_eq!(last_log(&state), "Active process for 'com.example.flocky' attached [PID: 28083].");
}

#[test]
fn action_and_gradle_events() {
    let mut state = AppState::default();
    handle_event(&mut state, AppEvent::ActionStarted("Build".into()), 0);
    assert!(state.is_busy);
    assert_eq!(state.current_action.as_deref(), Some("Build"));
    assert_eq!(last_log(&state), ">>> Build");
    handle_event(
        &mut state,
        AppEvent::ActionFinished { action: "Build".into(), success: true, message: "done".into() },
        0,
    );
    assert!(!state.is_busy);
    assert_eq!(last_log(&state), "✔ [Build] done");
    handle_event(
        &mut state,
        AppEvent::ActionFinished { action: "Run".into(), success: false, message: "boom".into() },
        0,
    );
    assert_eq!(last_log(&state), "✘ [Run] boom");

    handle_event(&mut state, AppEvent::GradleTaskStarted("Assemble".into()), 1234);
    assert_eq!(state.gradle_state.status, TaskStatus::Running { started_at_ms: 1234 });
    handle_event(
        &mut state,
        AppEvent::GradleTaskFinished {
            task: "assembleDebug".into(),
            success: false,
            exit_code: Some(1),
            duration_ms: 500,
            apk_path: None,
        },
        0,
    );
    assert_eq!(
        state.gradle_state.status,
        TaskStatus::Failed { exit_code: Some(1), duration_ms: 500 }
    );
    handle_event(&mut state, AppEvent::GradleTaskCancelled, 0);
    assert_eq!(state.gradle_state.status, TaskStatus::Cancelled);
}

#[test]
fn logcat_events_fill_sessions() {
    let mut state = AppState::default();
    handle_event(
        &mut state,
        AppEvent::LogcatLine { serial: "emu-1".into(), line: "I/Test: hello".into() },
        0,
    );
    assert_eq!(state.log_state.sessions.len(), 1);
    assert_eq!(state.log_state.sessions[0].lines, vec!["I/Test: hello".to_string()]);
    handle_event(
        &mut state,
        AppEvent::LogcatStreamStatus { serial: "emu-1".into(), is_streaming: true },
        0,
    );
    assert!(state.log_state.sessions[0].is_streaming);
    handle_event(
        &mut state,
        AppEvent::LogcatStreamStatus { serial: "other".into(), is_streaming: true },
        0,
    );
    assert_eq!(state.log_state.sessions.len(), 1);
}
