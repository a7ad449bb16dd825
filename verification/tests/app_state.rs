use ast::app::AppState;
use ast::model::{AvdInfo, DeviceTarget, PaneFocus, TargetType};

fn device(serial: &str, model: Option<&str>, product: Option<&str>) -> DeviceTarget {
    DeviceTarget {
        serial: serial.into(),
        state: "device".into(),
        target_type: TargetType::Emulator,
        product: product.map(|s| s.into()),
        model: model.map(|s| s.into()),
        device: None,
        transport_id: None,
        boot_completed: true,
    }
}

#[test]
fn test_toggle_focus() {
    let mut state = AppState::default();
    assert_eq!(state.pane_focus, PaneFocus::InstalledAvds);
    state.toggle_focus();
    assert_eq!(state.pane_focus, PaneFocus::RunningTargets);
    state.toggle_focus();
    assert_eq!(state.pane_focus, PaneFocus::InstalledAvds);
}

#[test]
fn test_navigation_and_clamping() {
    let mut state = AppState::default();
    let avds = vec![
        AvdInfo {
            name: "Pixel_6a".into(),
            is_running: false,
        },
        AvdInfo {
            name: "medium_phone".into(),
            is_running: false,
        },
    ];
    state.update_devices(avds, vec![]);
    assert_eq!(state.avd_selected_index, 0);

    state.select_next();
    assert_eq!(state.avd_selected_index, 1);
    state.select_next();
    assert_eq!(state.avd_selected_index, 0);

    state.select_prev();
    assert_eq!(state.avd_selected_index, 1);
    state.select_prev();
    assert_eq!(state.avd_selected_index, 0);
}

#[test]
fn test_device_matching_running() {
    let mut state = AppState::default();
    let avds = vec![AvdInfo {
        name: "Pixel_6a".into(),
        is_running: false,
    }];
    let devices = vec![DeviceTarget {
        serial: "emulator-5554".into(),
        state: "device".into(),
        target_type: TargetType::Emulator,
        product: Some("sdk_gphone64_x86_64".into()),
        model: Some("Pixel_6a".into()),
        device: Some("emulator".into()),
        transport_id: Some("1".into()),
        boot_completed: true,
    }];
    state.update_devices(avds, devices);
    assert!(state.installed_avds[0].is_running);
}

#[test]
fn test_gradle_scrolling_and_auto_scroll() {
    let mut state = AppState::default();
    assert!(state.gradle_state.auto_scroll);

    for i in 0..50 {
        state.append_gradle_line(format!("Line {i}"));
    }
    assert_eq!(state.gradle_state.scroll_offset, 50);

    state.scroll_gradle_up(10);
    assert_eq!(state.gradle_state.scroll_offset, 40);
    assert!(!state.gradle_state.auto_scroll);

    state.scroll_gradle_down(10);
    assert_eq!(state.gradle_state.scroll_offset, 50);
    assert!(state.gradle_state.auto_scroll);
}

#[test]
fn test_log_sessions_and_persistence() {
    let mut state = AppState::default();
    let devices = vec![
        DeviceTarget {
            serial: "mock-emu-001".into(),
            state: "device".into(),
            target_type: TargetType::Emulator,
            product: None,
            model: Some("Pixel_6a".into()),
            device: None,
            transport_id: None,
            boot_completed: true,
        },
        DeviceTarget {
            serial: "mock-phone-002".into(),
            state: "device".into(),
            target_type: TargetType::UsbPhone,
            product: None,
            model: Some("Galaxy S21".into()),
            device: None,
            transport_id: None,
            boot_completed: true,
        },
    ];
    state.update_devices(vec![], devices);

    assert_eq!(state.log_state.active_device_serial.as_deref(), Some("mock-emu-001"));

    // Append logs to emulator
    state.append_logcat_line("mock-emu-001", "E/Test: Emulator log 1".into());
    state.append_logcat_line("mock-emu-001", "I/Test: Emulator log 2".into());

    // Append logs to physical phone
    state.append_logcat_line("mock-phone-002", "D/Test: Phone log 1".into());

    // Switch to physical phone
    state.select_next_log_device();
    assert_eq!(state.log_state.active_device_serial.as_deref(), Some("mock-phone-002"));
    assert_eq!(state.active_log_session().unwrap().lines.len(), 1);

    // Switch back to emulator - verify preservation
    state.select_prev_log_device();
    assert_eq!(state.log_state.active_device_serial.as_deref(), Some("mock-emu-001"));
    assert_eq!(state.active_log_session().unwrap().lines.len(), 2);
}

#[test]
fn test_log_search_filter() {
    let mut state = AppState::default();
    state.get_or_create_log_session("mock-device-filter", "Pixel");
    state.select_log_device("mock-device-filter");

    state.append_logcat_line("mock-device-filter", "09-17 12:00:00.001 123 456 D App: Starting...".into());
    state.append_logcat_line("mock-device-filter", "09-17 12:00:01.002 123 456 E Crash: FatalException occurred".into());
    state.append_logcat_line("mock-device-filter", "09-17 12:00:02.003 123 456 I App: Shutdown".into());

    let session = state.active_log_session().unwrap();
    assert_eq!(session.filtered_lines().len(), 3);

    state.update_search_query("Crash".into());
    let session = state.active_log_session().unwrap();
    assert_eq!(session.filtered_lines().len(), 1);
    assert!(session.filtered_lines()[0].contains("FatalException"));
}

#[test]
fn new_state_starts_with_welcome_lines() {
    let state = AppState::new("/work/app".into(), "/home/u/.ast/logs".into());
    let lines: Vec<&str> = state.status_logs.iter().map(|s| s.as_str()).collect();
    assert_eq!(
        lines,
        vec![
            "Welcome to ast (Android Studio TUI).",
            "Project root: /work/app",
            "Discovering installed AVDs and connected devices...",
        ]
    );
    assert_eq!(state.log_state.logs_dir, "/home/u/.ast/logs");
    assert_eq!(state.gradle_state.available_tasks.len(), 5);
}

#[test]
fn activity_log_keeps_the_newest_200_lines() {
    let mut state = AppState::default();
    for i in 0..250 {
        state.add_log(format!("entry {i}"));
    }
    assert_eq!(state.status_logs.len(), 200);
    assert_eq!(state.status_logs.back().unwrap(), "entry 249");
    assert_eq!(state.status_logs.front().unwrap(), "entry 50");
}

#[test]
fn session_drains_oldest_lines_past_the_limit() {
    let mut state = AppState::default();
    for i in 0..10_001 {
        state.append_logcat_line("dev", format!("line {i}"));
    }
    let session = &state.log_state.sessions[0];
    assert_eq!(session.lines.len(), 9_001);
    assert_eq!(session.lines[0], "line 1000");
    assert_eq!(session.lines.last().unwrap(), "line 10000");
    assert_eq!(session.scroll_offset, 9_001);
}

#[test]
fn new_sessions_await_history_and_restore_it_once() {
    let mut state = AppState::new(".".into(), "/logs".into());
    state.append_logcat_line("emu:1", "fresh".into());
    assert_eq!(state.sessions_awaiting_history(), vec!["emu:1".to_string()]);
    assert_eq!(state.log_state.sessions[0].log_file_path, "/logs/emu_1.log");
    state.restore_log_history("emu:1", Some("old 1\r\nold 2\n".into()));
    let s = &state.log_state.sessions[0];
    assert_eq!(s.lines, vec!["old 1", "old 2", "fresh"]);
    assert_eq!(s.scroll_offset, 3);
    assert!(state.sessions_awaiting_history().is_empty());
    state.restore_log_history("emu:1", Some("again\n".into()));
    assert_eq!(state.log_state.sessions[0].lines.len(), 3);
}

#[test]
fn restore_keeps_only_the_last_thousand_saved_lines() {
    let mut state = AppState::default();
    state.get_or_create_log_session("d", "D");
    let saved: String = (0..1500).map(|i| format!("saved {i}\n")).collect();
    state.restore_log_history("d", Some(saved));
    let s = &state.log_state.sessions[0];
    assert_eq!(s.lines.len(), 1000);
    assert_eq!(s.lines[0], "saved 500");
    state.get_or_create_log_session("e", "E");
    state.restore_log_history("e", None);
    assert!(state.log_state.sessions[1].lines.is_empty());
    assert!(!state.log_state.sessions[1].awaiting_history);
}

#[test]
fn refresh_defaults_active_device_and_clamps_selection() {
    let mut state = AppState::default();
    state.update_devices(
        vec![AvdInfo { name: "a".into(), is_running: false }, AvdInfo { name: "b".into(), is_running: false }],
        vec![device("emulator-5554", Some("Pixel"), None), device("emulator-5556", None, None)],
    );
    state.select_next();
    assert_eq!(state.avd_selected_index, 1);
    state.toggle_focus();
    state.select_prev();
    assert_eq!(state.device_selected_index, 1);
    assert_eq!(state.log_state.sessions.len(), 2);
    assert_eq!(state.log_state.sessions[0].display_name, "Pixel (emulator-5554)");
    state.select_log_device("gone");
    state.update_devices(vec![AvdInfo { name: "a".into(), is_running: false }], vec![device("emulator-5556", None, None)]);
    assert_eq!(state.avd_selected_index, 0);
    assert_eq!(state.device_selected_index, 0);
    assert_eq!(state.log_state.active_device_serial.as_deref(), Some("emulator-5556"));
    assert_eq!(state.log_state.sessions.len(), 2);
}

#[test]
fn avd_runs_when_name_in_serial_model_or_product() {
    let mut state = AppState::default();
    state.update_devices(
        vec![
            AvdInfo { name: "5554".into(), is_running: false },
            AvdInfo { name: "gphone".into(), is_running: true },
            AvdInfo { name: "Nexus".into(), is_running: true },
        ],
        vec![device("emulator-5554", None, Some("sdk_gphone64"))],
    );
    assert!(state.installed_avds[0].is_running);
    assert!(state.installed_avds[1].is_running);
    assert!(!state.installed_avds[2].is_running);
}

#[test]
fn log_scrolling_on_the_active_session() {
    let mut state = AppState::default();
    state.get_or_create_log_session("d", "D");
    state.select_log_device("d");
    for i in 0..30 {
        state.append_logcat_line("d", format!("I/x: {i}"));
    }
    state.scroll_logs_up(10);
    let s = state.active_log_session().unwrap();
    assert_eq!(s.scroll_offset, 20);
    assert!(!s.auto_scroll);
    state.scroll_logs_down(100);
    let s = state.active_log_session().unwrap();
    assert_eq!(s.scroll_offset, 30);
    assert!(s.auto_scroll);
    state.scroll_logs_top();
    assert_eq!(state.active_log_session().unwrap().scroll_offset, 0);
    state.scroll_logs_bottom();
    assert_eq!(state.active_log_session().unwrap().scroll_offset, 30);
    state.toggle_logs_auto_scroll();
    assert!(!state.active_log_session().unwrap().auto_scroll);
    state.clear_active_logs();
    let s = state.active_log_session().unwrap();
    assert!(s.lines.is_empty());
    assert!(s.auto_scroll);
    assert_eq!(s.scroll_offset, 0);
}

#[test]
fn log_actions_without_active_session_change_nothing() {
    let mut state = AppState::default();
    state.scroll_logs_up(3);
    state.update_search_query("x".into());
    assert!(state.active_log_session().is_none());
    assert!(state.log_state.sessions.is_empty());
    state.select_next_log_device();
    state.select_log_device_by_index(4);
    assert_eq!(state.log_state.active_device_serial, None);
}

#[test]
fn gradle_toggle_and_clear() {
    let mut state = AppState::default();
    state.append_gradle_line("a".into());
    state.append_gradle_line("b".into());
    state.toggle_gradle_auto_scroll();
    assert!(!state.gradle_state.auto_scroll);
    state.scroll_gradle_up(5);
    assert_eq!(state.gradle_state.scroll_offset, 0);
    state.append_gradle_line("c".into());
    assert_eq!(state.gradle_state.scroll_offset, 0);
    state.toggle_gradle_auto_scroll();
    assert_eq!(state.gradle_state.scroll_offset, 3);
    state.gradle_state.apk_path = Some("x.apk".into());
    state.clear_gradle_output();
    assert!(state.gradle_state.output_lines.is_empty());
    assert_eq!(state.gradle_state.scroll_offset, 0);
    assert!(state.gradle_state.auto_scroll);
    assert_eq!(state.gradle_state.apk_path, None);
}

#[test]
fn selected_items() {
    let mut state = AppState::default();
    assert!(state.get_selected_avd().is_none());
    assert!(state.get_selected_device().is_none());
    state.update_devices(vec![AvdInfo { name: "a".into(), is_running: false }], vec![device("s", None, None)]);
    assert_eq!(state.get_selected_avd().unwrap().name, "a");
    assert_eq!(state.get_selected_device().unwrap().serial, "s");
    assert_eq!(state.active_log_device_index(), 0);
    assert_eq!(state.log_file_path_for_serial("s"), "./.ast/logs/s.log");
}

#[test]
fn sessions_are_made_once_and_switching_keeps_lines() {
    let mut state = AppState::default();
    state.update_devices(
        vec![],
        vec![
            device("emu-1", Some("Pixel"), None),
            device("emu-2", None, None),
        ],
    );
    state.get_or_create_log_session("emu-1", "Pixel (emu-1)");
    state.get_or_create_log_session("emu-1", "");
    assert_eq!(state.log_state.sessions.len(), 2);
    assert_eq!(state.log_state.sessions[0].display_name, "Pixel (emu-1)");
    state.append_logcat_line("emu-1", "I/A: one".into());
    state.select_next_log_device();
    assert_eq!(state.log_state.active_device_serial.as_deref(), Some("emu-2"));
    state.select_prev_log_device();
    assert_eq!(state.log_state.active_device_serial.as_deref(), Some("emu-1"));
    assert_eq!(state.log_state.sessions[0].lines, vec!["I/A: one".to_string()]);
}

#[test]
fn streaming_marker_follows_the_session() {
    let mut state = AppState::default();
    assert!(!state.is_device_streaming("emu-1"));
    state.get_or_create_log_session("emu-1", "");
    assert!(!state.is_device_streaming("emu-1"));
    state.log_state.sessions[0].is_streaming = true;
    assert!(state.is_device_streaming("emu-1"));
}
