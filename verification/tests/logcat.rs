use ast::android::logcat::{
    is_logcat_streaming, log_file_path, sanitize_serial, start_logcat_stream, stop_logcat_stream,
    toggle_logcat_stream, StreamRegistry,
};

#[test]
fn test_sanitize_serial() {
    assert_eq!(sanitize_serial("emulator-5554"), "emulator-5554");
    assert_eq!(sanitize_serial("192.168.1.100:5555"), "192.168.1.100_5555");
    assert_eq!(sanitize_serial("RZCY80FFWAV"), "RZCY80FFWAV");
}

#[test]
fn test_log_file_path() {
    let path = log_file_path("/home/dev/.ast/logs", "emulator-5554");
    assert!(path.ends_with(".ast/logs/emulator-5554.log"));
}

#[test]
fn log_file_path_joins_like_paths() {
    assert_eq!(log_file_path("./.ast/logs", "a:b"), "./.ast/logs/a_b.log");
    assert_eq!(log_file_path("/tmp/", "x"), "/tmp/x.log");
    assert_eq!(log_file_path("", "x/y"), "x_y.log");
}

#[test]
fn sanitize_serial_is_idempotent_and_keeps_length() {
    let once = sanitize_serial("adb-XYZ._tls-connect@ 10.0.0.2:37000");
    assert_eq!(once, "adb-XYZ._tls-connect__10.0.0.2_37000");
    assert_eq!(sanitize_serial(&once), once);
}

#[test]
fn stream_registry_register_and_stop() {
    let mut reg = StreamRegistry::new();
    assert!(!is_logcat_streaming(&reg, "emulator-5554"));
    let (tx, rx) = tokio::sync::watch::channel(false);
    assert!(reg.register("emulator-5554".to_string(), tx));
    assert!(is_logcat_streaming(&reg, "emulator-5554"));
    let (tx2, _rx2) = tokio::sync::watch::channel(false);
    assert!(!reg.register("emulator-5554".to_string(), tx2));
    assert!(stop_logcat_stream(&mut reg, "emulator-5554"));
    assert!(*rx.borrow());
    assert!(!is_logcat_streaming(&reg, "emulator-5554"));
    assert!(!stop_logcat_stream(&mut reg, "emulator-5554"));
}

#[test]
fn stream_registry_unregister_leaves_others() {
    let mut reg = StreamRegistry::new();
    let (a, _ra) = tokio::sync::watch::channel(false);
    let (b, rb) = tokio::sync::watch::channel(false);
    reg.register("a".to_string(), a);
    reg.register("b".to_string(), b);
    assert!(reg.unregister("a"));
    assert!(!is_logcat_streaming(&reg, "a"));
    assert!(is_logcat_streaming(&reg, "b"));
    assert!(!*rb.borrow());
    assert!(!reg.unregister("a"));
}

#[test]
fn start_and_toggle_streams() {
    let mut reg = StreamRegistry::new();
    // nothing runs: the toggle asks for a start and changes nothing
    assert!(toggle_logcat_stream(&mut reg, "emu"));
    assert!(!is_logcat_streaming(&reg, "emu"));
    let (tx, rx) = tokio::sync::watch::channel(false);
    assert!(start_logcat_stream(&mut reg, "emu".to_string(), tx));
    let (tx2, rx2) = tokio::sync::watch::channel(false);
    assert!(!start_logcat_stream(&mut reg, "emu".to_string(), tx2));
    assert!(!*rx2.borrow());
    // a running stream is stopped by the toggle
    assert!(!toggle_logcat_stream(&mut reg, "emu"));
    assert!(*rx.borrow());
    assert!(!is_logcat_streaming(&reg, "emu"));
}

#[test]
fn stopping_signals_the_handle_of_that_device() {
    let mut reg = StreamRegistry::new();
    let (a, ra) = tokio::sync::watch::channel(false);
    let (b, rb) = tokio::sync::watch::channel(false);
    let (c, rc) = tokio::sync::watch::channel(false);
    assert!(start_logcat_stream(&mut reg, "a".to_string(), a));
    assert!(start_logcat_stream(&mut reg, "b".to_string(), b));
    assert!(start_logcat_stream(&mut reg, "c".to_string(), c));
    assert!(stop_logcat_stream(&mut reg, "b"));
    assert!(!*ra.borrow());
    assert!(*rb.borrow());
    assert!(!*rc.borrow());
    assert!(!toggle_logcat_stream(&mut reg, "c"));
    assert!(*rc.borrow());
    assert!(!*ra.borrow());
    assert_eq!(reg.streams.len(), 1);
    assert_eq!(reg.streams[0].0, "a");
}
