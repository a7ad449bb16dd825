use ast::app::AppState;
use ast::events::KeyCode;
use ast::handler::build_tab::{self, BuildAction, BuildCommand};
use ast::handler::emulator::{self, EmuAction, EmuCommand};
use ast::handler::logs::{self, LogsAction, LogsCommand};
use ast::model::{AvdInfo, DeviceTarget, PaneFocus, SearchMode, TargetType, TaskStatus};

#[test]
fn test_map_key_build_actions() {
    assert_eq!(build_tab::map_key(KeyCode::Char('s')), Some(BuildAction::Sync));
    assert_eq!(build_tab::map_key(KeyCode::Char('b')), Some(BuildAction::AssembleDebug));
    assert_eq!(build_tab::map_key(KeyCode::Char('c')), Some(BuildAction::Clean));
    assert_eq!(build_tab::map_key(KeyCode::Char('x')), Some(BuildAction::Cancel));
    assert_eq!(build_tab::map_key(KeyCode::Char('l')), Some(BuildAction::ClearLog));
    assert_eq!(build_tab::map_key(KeyCode::Char('a')), Some(BuildAction::ToggleAutoScroll));
    assert_eq!(build_tab::map_key(KeyCode::Up), Some(BuildAction::ScrollUp));
    assert_eq!(build_tab::map_key(KeyCode::Down), Some(BuildAction::ScrollDown));
    assert_eq!(build_tab::map_key(KeyCode::PageUp), Some(BuildAction::ScrollPageUp));
    assert_eq!(build_tab::map_key(KeyCode::PageDown), Some(BuildAction::ScrollPageDown));
    assert_eq!(build_tab::map_key(KeyCode::Char('z')), None);
}

#[test]
fn test_map_key_installed_avds() {
    assert_eq!(
        emulator::map_key(KeyCode::Enter, PaneFocus::InstalledAvds),
        Some(EmuAction::RunSelectedAvd)
    );
    assert_eq!(
        emulator::map_key(KeyCode::Char('r'), PaneFocus::InstalledAvds),
        Some(EmuAction::RunSelectedAvd)
    );
    assert_eq!(
        emulator::map_key(KeyCode::Tab, PaneFocus::InstalledAvds),
        Some(EmuAction::TogglePane)
    );
    assert_eq!(
        emulator::map_key(KeyCode::Char('s'), PaneFocus::InstalledAvds),
        None
    );
}

#[test]
fn test_map_key_running_targets() {
    assert_eq!(
        emulator::map_key(KeyCode::Char('s'), PaneFocus::RunningTargets),
        Some(EmuAction::LaunchScrcpy)
    );
    assert_eq!(
        emulator::map_key(KeyCode::Char('k'), PaneFocus::RunningTargets),
        Some(EmuAction::StopEmulator)
    );
    assert_eq!(
        emulator::map_key(KeyCode::Char('b'), PaneFocus::RunningTargets),
        Some(EmuAction::BuildAndDeploy)
    );
    assert_eq!(
        emulator::map_key(KeyCode::Enter, PaneFocus::RunningTargets),
        None
    );
}

#[test]
fn test_map_key_editing_mode() {
    assert_eq!(
        logs::map_key(KeyCode::Char('a'), SearchMode::Editing),
        Some(LogsAction::SearchChar('a'))
    );
    assert_eq!(
        logs::map_key(KeyCode::Backspace, SearchMode::Editing),
        Some(LogsAction::SearchBackspace)
    );
    assert_eq!(
        logs::map_key(KeyCode::Enter, SearchMode::Editing),
        Some(LogsAction::ExitSearch)
    );
    assert_eq!(
        logs::map_key(KeyCode::Esc, SearchMode::Editing),
        Some(LogsAction::ExitSearch)
    );
}

#[test]
fn test_map_key_normal_mode() {
    assert_eq!(
        logs::map_key(KeyCode::Char('/'), SearchMode::Normal),
        Some(LogsAction::EnterSearch)
    );
    assert_eq!(
        logs::map_key(KeyCode::Char('c'), SearchMode::Normal),
        Some(LogsAction::ClearSearch)
    );
    assert_eq!(
        logs::map_key(KeyCode::Tab, SearchMode::Normal),
        Some(LogsAction::NextDevice)
    );
    assert_eq!(
        logs::map_key(KeyCode::Char('1'), SearchMode::Normal),
        Some(LogsAction::SelectDeviceIndex(0))
    );
    assert_eq!(
        logs::map_key(KeyCode::Char('a'), SearchMode::Normal),
        Some(LogsAction::ToggleAutoScroll)
    );
    assert_eq!(
        logs::map_key(KeyCode::Char('k'), SearchMode::Normal),
        Some(LogsAction::ToggleStream)
    );
}

#[test]
fn logs_keys_from_the_keybinding_table() {
    let n = SearchMode::Normal;
    assert_eq!(logs::map_key(KeyCode::Char('9'), n), Some(LogsAction::SelectDeviceIndex(8)));
    assert_eq!(logs::map_key(KeyCode::Char('0'), n), None);
    assert_eq!(logs::map_key(KeyCode::Char('['), n), Some(LogsAction::PrevDevice));
    assert_eq!(logs::map_key(KeyCode::Char(']'), n), Some(LogsAction::NextDevice));
    assert_eq!(logs::map_key(KeyCode::Char('g'), n), Some(LogsAction::ScrollTop));
    assert_eq!(logs::map_key(KeyCode::Char('G'), n), Some(LogsAction::ScrollBottom));
    assert_eq!(logs::map_key(KeyCode::Home, n), Some(LogsAction::ScrollTop));
    assert_eq!(logs::map_key(KeyCode::PageDown, n), Some(LogsAction::ScrollDown(15)));
    assert_eq!(logs::map_key(KeyCode::Char('x'), n), Some(LogsAction::ClearScreen));
    assert_eq!(logs::map_key(KeyCode::Char('l'), n), Some(LogsAction::ClearScreen));
    assert_eq!(logs::map_key(KeyCode::Up, SearchMode::Editing), None);
}

fn target(serial: &str, t: TargetType) -> DeviceTarget {
    DeviceTarget {
        serial: serial.into(),
        state: "device".into(),
        target_type: t,
        product: None,
        model: None,
        device: None,
        transport_id: None,
        boot_completed: true,
    }
}

#[test]
fn emulator_actions_report_and_ask_for_work() {
    let mut state = AppState::default();
    assert_eq!(emulator::execute_action(EmuAction::RunSelectedAvd, &mut state), None);
    assert_eq!(state.status_logs.back().unwrap(), "No AVD selected to run.");
    state.update_devices(
        vec![AvdInfo { name: "Pixel_6a".into(), is_running: false }],
        vec![target("R58", TargetType::UsbPhone), target("emulator-5554", TargetType::Emulator)],
    );
    let cmd = emulator::execute_action(EmuAction::RunSelectedAvd, &mut state);
    assert_eq!(cmd, Some(EmuCommand::LaunchEmulator { avd_name: "Pixel_6a".into() }));
    assert_eq!(state.status_logs.back().unwrap(), "Starting headless emulator 'Pixel_6a' with host GPU...");
    assert_eq!(emulator::execute_action(EmuAction::LaunchScrcpy, &mut state), None);
    assert_eq!(
        state.status_logs.back().unwrap(),
        "Note: Scrcpy is disabled for physical devices (operate device by hand)."
    );
    assert_eq!(emulator::execute_action(EmuAction::StopEmulator, &mut state), None);
    assert_eq!(state.status_logs.back().unwrap(), "Cannot stop physical USB device via emu kill.");
    assert_eq!(
        emulator::execute_action(EmuAction::BuildAndDeploy, &mut state),
        Some(EmuCommand::BuildAndDeploy { serial: "R58".into() })
    );
    emulator::execute_action(EmuAction::TogglePane, &mut state);
    emulator::execute_action(EmuAction::SelectNext, &mut state);
    assert_eq!(
        emulator::execute_action(EmuAction::StopEmulator, &mut state),
        Some(EmuCommand::StopEmulator { serial: "emulator-5554".into() })
    );
    assert_eq!(state.status_logs.back().unwrap(), "Stopping emulator 'emulator-5554'...");
    assert_eq!(
        emulator::execute_action(EmuAction::RefreshDevices, &mut state),
        Some(EmuCommand::RefreshDevices)
    );
    assert_eq!(state.status_logs.back().unwrap(), "Refreshing devices...");
}

#[test]
fn build_actions_respect_a_running_task() {
    let mut state = AppState::default();
    let cmd = build_tab::execute_action(BuildAction::AssembleDebug, &mut state);
    assert_eq!(
        cmd,
        Some(BuildCommand::RunGradle {
            args: vec!["assembleDebug".into(), "--console=plain".into()],
            display_name: "Assemble Debug".into()
        })
    );
    assert_eq!(build_tab::execute_action(BuildAction::Cancel, &mut state), None);
    assert_eq!(state.gradle_state.output_lines.last().unwrap(), "No Gradle task is currently running.");
    state.gradle_state.status = TaskStatus::Running { started_at_ms: 5 };
    assert_eq!(build_tab::execute_action(BuildAction::Sync, &mut state), None);
    assert_eq!(
        state.gradle_state.output_lines.last().unwrap(),
        "A Gradle task is already running. Press [x] to cancel before starting a new one."
    );
    assert_eq!(build_tab::execute_action(BuildAction::Cancel, &mut state), Some(BuildCommand::CancelGradle));
    build_tab::report_cancel(&mut state, true);
    assert_eq!(
        state.gradle_state.output_lines.last().unwrap(),
        ">>> Cancellation signal sent to running Gradle task..."
    );
    build_tab::report_cancel(&mut state, false);
    assert_eq!(state.gradle_state.output_lines.last().unwrap(), "No active task could be cancelled.");
    build_tab::execute_action(BuildAction::ClearLog, &mut state);
    assert!(state.gradle_state.output_lines.is_empty());
}

#[test]
fn logs_actions_edit_the_query() {
    let mut state = AppState::default();
    state.update_devices(vec![], vec![target("d1", TargetType::Emulator), target("d2", TargetType::Emulator)]);
    state.append_logcat_line("d1", "I/App: hello".into());
    state.append_logcat_line("d1", "E/App: boom".into());
    logs::execute_action(LogsAction::EnterSearch, &mut state);
    assert_eq!(state.log_state.search_mode, SearchMode::Editing);
    logs::execute_action(LogsAction::SearchChar('b'), &mut state);
    logs::execute_action(LogsAction::SearchChar('x'), &mut state);
    assert_eq!(state.active_log_session().unwrap().search_query, "bx");
    logs::execute_action(LogsAction::SearchBackspace, &mut state);
    let s = state.active_log_session().unwrap();
    assert_eq!(s.search_query, "b");
    assert_eq!(s.scroll_offset, 1);
    logs::execute_action(LogsAction::ClearSearch, &mut state);
    assert_eq!(state.active_log_session().unwrap().search_query, "");
    assert_eq!(state.active_log_session().unwrap().scroll_offset, 2);
    logs::execute_action(LogsAction::ExitSearch, &mut state);
    assert_eq!(state.log_state.search_mode, SearchMode::Normal);
    assert_eq!(
        logs::execute_action(LogsAction::ToggleStream, &mut state),
        Some(LogsCommand::ToggleStream { serial: "d1".into() })
    );
    logs::execute_action(LogsAction::SelectDeviceIndex(1), &mut state);
    assert_eq!(state.log_state.active_device_serial.as_deref(), Some("d2"));
    logs::execute_action(LogsAction::NextDevice, &mut state);
    assert_eq!(state.log_state.active_device_serial.as_deref(), Some("d1"));
    logs::execute_action(LogsAction::PrevDevice, &mut state);
    assert_eq!(state.log_state.active_device_serial.as_deref(), Some("d2"));
}
