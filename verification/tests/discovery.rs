use ast::android::discovery::{is_boot_completed_output, parse_adb_device_line, parse_avd_output};
use ast::model::TargetType;

#[test]
fn test_parse_avd_output() {
    let raw = "Pixel_6a\nmedium_phone\n\n";
    let avds = parse_avd_output(raw);
    assert_eq!(avds.len(), 2);
    assert_eq!(avds[0].name, "Pixel_6a");
    assert_eq!(avds[1].name, "medium_phone");
}

#[test]
fn test_parse_adb_physical_phone() {
    let line = "RZCY80FFWAV            device usb:1-2 product:a17xins model:SM_A176B device:a17x transport_id:6";
    let dev = parse_adb_device_line(line).expect("Should parse physical phone");
    assert_eq!(dev.serial, "RZCY80FFWAV");
    assert_eq!(dev.state, "device");
    assert_eq!(dev.target_type, TargetType::UsbPhone);
    assert_eq!(dev.model.as_deref(), Some("SM_A176B"));
    assert_eq!(dev.transport_id.as_deref(), Some("6"));
}

#[test]
fn test_parse_adb_emulator() {
    let line = "emulator-5554          device product:sdk_gphone64_x86_64 model:sdk_gphone64_x86_64 device:emulator64_x86_64 transport_id:1";
    let dev = parse_adb_device_line(line).expect("Should parse emulator");
    assert_eq!(dev.serial, "emulator-5554");
    assert_eq!(dev.state, "device");
    assert_eq!(dev.target_type, TargetType::Emulator);
}

#[test]
fn parse_avd_output_trims_and_handles_crlf() {
    let avds = parse_avd_output("  Pixel_6a  \r\n\r\n\tTablet API 34\r\n");
    assert_eq!(avds.len(), 2);
    assert_eq!(avds[0].name, "Pixel_6a");
    assert_eq!(avds[1].name, "Tablet API 34");
    assert!(!avds[0].is_running);
    assert!(parse_avd_output("").is_empty());
    assert!(parse_avd_output("\n  \n").is_empty());
}

#[test]
fn adb_header_and_noise_lines_are_skipped() {
    assert!(parse_adb_device_line("List of devices attached").is_none());
    assert!(parse_adb_device_line("* daemon not running; starting now at tcp:5037").is_none());
    assert!(parse_adb_device_line("   ").is_none());
    assert!(parse_adb_device_line("lonely").is_none());
}

#[test]
fn adb_tags_last_value_wins_and_fields_default() {
    let dev = parse_adb_device_line("ABCDEF device product:one product:two").unwrap();
    assert_eq!(dev.product.as_deref(), Some("two"));
    assert_eq!(dev.model, None);
    assert_eq!(dev.device, None);
    assert_eq!(dev.transport_id, None);
    assert!(!dev.boot_completed);
    // letters only, no usb: physical
    assert_eq!(dev.target_type, TargetType::UsbPhone);
}

#[test]
fn adb_emulator_detection_rules() {
    // product names of emulator images
    let d = parse_adb_device_line("ABC device usb:1 product:ranchu_arm").unwrap();
    assert_eq!(d.target_type, TargetType::Emulator);
    let d = parse_adb_device_line("ABC device usb:1 product:goldfish").unwrap();
    assert_eq!(d.target_type, TargetType::Emulator);
    // network serial without usb attachment
    let d = parse_adb_device_line("192.168.1.5:5555 device product:phone").unwrap();
    assert_eq!(d.target_type, TargetType::Emulator);
    // digits in the serial but attached over usb
    let d = parse_adb_device_line("R58M123 device usb:3-1 product:beyond").unwrap();
    assert_eq!(d.target_type, TargetType::UsbPhone);
    // offline state is kept
    let d = parse_adb_device_line("emulator-5556 offline").unwrap();
    assert_eq!(d.state, "offline");
    assert_eq!(d.target_type, TargetType::Emulator);
}

#[test]
fn boot_completed_output_needs_exactly_one() {
    assert!(is_boot_completed_output("1\n"));
    assert!(is_boot_completed_output("  1 "));
    assert!(!is_boot_completed_output("0\n"));
    assert!(!is_boot_completed_output(""));
    assert!(!is_boot_completed_output("11"));
}
