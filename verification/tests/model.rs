use ast::model::{DeviceLogSession, DeviceTarget, GradleState, TargetType};

#[test]
fn test_package_filter_with_text() {
    let mut session = DeviceLogSession::new(
        "emulator-5554".into(),
        "Pixel".into(),
        "/tmp/test.log".into(),
    );
    session.lines = vec![
        "09-17 23:00:00.001 1028 1028 D wtasd : sar_limit 1396".into(),
        "09-17 23:00:01.002 25333 25333 I ActivityTaskManager: Start proc com.example.flocky for activity".into(),
        "09-17 23:00:02.003 1191 1523 I SemWifi: scan done".into(),
    ];

    session.search_query = "package:com.example.flocky".into();
    let matches = session.filtered_lines();
    assert_eq!(matches.len(), 1);
    assert!(matches[0].contains("com.example.flocky"));
}

#[test]
fn test_package_filter_with_pid_time_format() {
    let mut session = DeviceLogSession::new(
        "emulator-5554".into(),
        "Pixel".into(),
        "/tmp/test.log".into(),
    );
    session.app_pid = Some(28083);
    session.lines = vec![
        "09-17 23:22:28.344 D/BoundBrokerSvc( 8396): onUnbind".into(),
        "09-17 23:22:41.679 I/LocationManager(28083): >>> NEW GPS LOCK".into(),
        "09-17 23:22:42.000 D/UsbStatsMonitor( 1191): 0 0 0 0".into(),
    ];

    session.search_query = "package:com.example.flocky".into();
    let matches = session.filtered_lines();
    assert_eq!(matches.len(), 1);
    assert!(matches[0].contains("LocationManager(28083)"));
}

fn session_with(lines: &[&str]) -> DeviceLogSession {
    let mut s = DeviceLogSession::new("d".into(), "D".into(), "/tmp/d.log".into());
    s.lines = lines.iter().map(|l| l.to_string()).collect();
    s
}

#[test]
fn blank_query_shows_every_line_in_order() {
    let mut s = session_with(&["b", "a", "c"]);
    s.search_query = "   ".into();
    assert_eq!(s.filtered_lines(), vec!["b", "a", "c"]);
    assert_eq!(s.filtered_count(), 3);
}

#[test]
fn text_query_ignores_case_and_surrounding_space() {
    let mut s = session_with(&["E/Crash: Boom", "I/App: fine", "W/CRASH handler"]);
    s.search_query = "  crash ".into();
    assert_eq!(s.filtered_lines(), vec!["E/Crash: Boom", "W/CRASH handler"]);
}

#[test]
fn package_query_matches_pid_forms() {
    let mut s = session_with(&[
        "I/Tag( 4242): spaced",
        "I/Tag(4242) no colon",
        "01-01 00:00:00.000 4242 4243 I Tag: threadtime",
        "I/Tag(14242): other process",
        "I/Other: COM.Example.App started",
    ]);
    s.search_query = "package: com.example.app ".into();
    assert_eq!(s.filtered_lines(), vec!["I/Other: COM.Example.App started"]);
    s.app_pid = Some(4242);
    assert_eq!(
        s.filtered_lines(),
        vec![
            "I/Tag( 4242): spaced",
            "I/Tag(4242) no colon",
            "01-01 00:00:00.000 4242 4243 I Tag: threadtime",
            "I/Other: COM.Example.App started",
        ]
    );
}

#[test]
fn new_session_is_empty_and_follows_the_end() {
    let s = DeviceLogSession::new("s".into(), "n".into(), "p".into());
    assert!(s.lines.is_empty());
    assert!(s.auto_scroll);
    assert!(!s.is_streaming);
    assert!(s.search_query.is_empty());
    assert_eq!(s.app_pid, None);
    assert!(s.awaiting_history);
}

#[test]
fn display_name_uses_model_when_known() {
    let mut d = DeviceTarget {
        serial: "emulator-5554".into(),
        state: "device".into(),
        target_type: TargetType::Emulator,
        product: None,
        model: Some("Pixel_7".into()),
        device: None,
        transport_id: None,
        boot_completed: false,
    };
    assert_eq!(d.display_name(), "Pixel_7 (emulator-5554)");
    d.model = None;
    assert_eq!(d.display_name(), "emulator-5554");
    assert_eq!(TargetType::Emulator.label(), "Emulator");
    assert_eq!(TargetType::UsbPhone.label(), "Physical (USB)");
}

#[test]
fn gradle_state_defaults() {
    let g = GradleState::default();
    assert!(g.auto_scroll);
    assert_eq!(g.scroll_offset, 0);
    assert_eq!(g.available_tasks[0].0, "assembleDebug");
    assert_eq!(g.available_tasks[4].2, "./gradlew --refresh-dependencies help --console=plain");
}
