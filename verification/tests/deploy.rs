use ast::android::deploy::newest_aapt;
use ast::ui::{device_tab_name, match_summary, stream_marker, tab_number_label, LineColor};
use ast::android::deploy::{
    deploy_message, launch_components, package_from_gradle, package_from_manifest,
    parse_package_info, parse_pid_output, version_summary,
};
use ast::android::gradle::{builds_apk, gradle_command_line};

#[test]
fn test_detect_package_name_from_gradle_content() {
    let sample = r#"
            android {
                namespace = "com.example.flocky"
                compileSdk = 35
                defaultConfig {
                    applicationId = "com.example.flocky"
                    versionCode = 1
                    versionName = "1.0"
                }
            }
        "#;
    let detected = package_from_gradle(sample);
    assert_eq!(detected, Some("com.example.flocky".to_string()));
}

#[test]
fn gradle_package_forms() {
    assert_eq!(
        package_from_gradle("android {\n    applicationId 'org.demo.app'\n}\n"),
        Some("org.demo.app".to_string())
    );
    // an empty value is skipped and the search goes on
    assert_eq!(
        package_from_gradle("namespace = \"\"\napplicationId = \"a.b\"\n"),
        Some("a.b".to_string())
    );
    assert_eq!(package_from_gradle("compileSdk = 35\n"), None);
    assert_eq!(package_from_gradle(""), None);
}

#[test]
fn manifest_package() {
    let m = "<manifest xmlns:android=\"x\"\n    package=\"com.acme.tool\">\n</manifest>";
    assert_eq!(package_from_manifest(m), Some("com.acme.tool".to_string()));
    assert_eq!(package_from_manifest("<manifest package=\"\">"), None);
    assert_eq!(package_from_manifest("<manifest>"), None);
}

#[test]
fn package_info_from_dumpsys() {
    let text = "Packages:\n  Package [com.example] (abc):\n    versionCode=7 minSdk=24 targetSdk=35\n    versionName=1.2.3\n    lastUpdateTime=2024-09-17 12:00:00\n    versionName=9.9\n";
    let (name, code, time) = parse_package_info(text);
    assert_eq!(name, Some("1.2.3".to_string()));
    assert_eq!(code, Some("7".to_string()));
    assert_eq!(time, Some("2024-09-17 12:00:00".to_string()));
    assert_eq!(parse_package_info("nothing here"), (None, None, None));
}

#[test]
fn pid_output() {
    assert_eq!(parse_pid_output("28083\n"), Some(28083));
    assert_eq!(parse_pid_output("  123 456\n"), Some(123));
    assert_eq!(parse_pid_output("+5"), Some(5));
    assert_eq!(parse_pid_output("4294967295"), Some(4294967295));
    assert_eq!(parse_pid_output("4294967296"), None);
    assert_eq!(parse_pid_output("12a"), None);
    assert_eq!(parse_pid_output("+"), None);
    assert_eq!(parse_pid_output(""), None);
}

#[test]
fn components_from_resolve_output() {
    let out = "priority=0 preferredOrder=0 match=0x108000\ncom.example/.MainActivity\n";
    assert_eq!(launch_components("com.example", out), vec!["com.example/.MainActivity".to_string()]);
    assert_eq!(
        launch_components("com.example", "  /.Main  \n"),
        vec!["com.example/.Main".to_string()]
    );
    assert!(launch_components("com.example", "No activity found\n").is_empty());
}

#[test]
fn deploy_messages() {
    let v = Some("1.0".to_string());
    let c = Some("3".to_string());
    let t = Some("today".to_string());
    assert_eq!(version_summary(&v, &c, &t), "v1.0 (code 3) updated at today");
    assert_eq!(version_summary(&v, &c, &None), "v1.0 (code 3)");
    assert_eq!(version_summary(&v, &None, &t), "installed");
    assert_eq!(
        deploy_message("emulator-5554", &Some("com.x".to_string()), &v),
        "Successfully deployed and launched 'com.x' (version: 1.0) on 'emulator-5554'."
    );
    assert_eq!(
        deploy_message("emulator-5554", &Some("com.x".to_string()), &None),
        "Successfully deployed and launched 'com.x' (version: latest) on 'emulator-5554'."
    );
    assert_eq!(
        deploy_message("emulator-5554", &None, &v),
        "Successfully deployed debug APK to target 'emulator-5554'."
    );
}

#[test]
fn gradle_invocations() {
    let args = vec!["assembleDebug".to_string(), "--stacktrace".to_string()];
    assert_eq!(gradle_command_line(&args), "$ ./gradlew assembleDebug --stacktrace");
    assert_eq!(gradle_command_line(&vec![]), "$ ./gradlew ");
    assert!(builds_apk(&args));
    assert!(!builds_apk(&vec!["clean".to_string()]));
}

#[test]
fn aapt_from_the_newest_build_tools() {
    let d = |n: &str, two: bool, one: bool| (n.to_string(), two, one);
    let dirs = vec![d("33.0.1", false, true), d("34.0.0", true, true), d("35.0.0", false, false)];
    assert_eq!(newest_aapt(&dirs), Some((1, true)));
    // names compare character by character, as paths do
    let dirs = vec![d("34.0.0", true, false), d("9.0.0", false, true)];
    assert_eq!(newest_aapt(&dirs), Some((1, false)));
    let dirs = vec![d("30.0.0", false, true), d("30.0.0", true, false)];
    assert_eq!(newest_aapt(&dirs), Some((0, false)));
    assert_eq!(newest_aapt(&vec![d("35.0.0", false, false)]), None);
    assert_eq!(newest_aapt(&vec![]), None);
}

#[test]
fn tab_labels() {
    assert_eq!(device_tab_name(&Some("Pixel_6a".to_string()), "emulator-5554"), "Pixel_6a");
    assert_eq!(device_tab_name(&None, "R58M"), "R58M");
    assert_eq!(tab_number_label(0), "[1] ");
    assert_eq!(tab_number_label(11), "[12] ");
    assert_eq!(stream_marker(true), ("●".to_string(), LineColor::Green));
    assert_eq!(stream_marker(false), ("○".to_string(), LineColor::DarkGray));
    assert_eq!(match_summary(3, 120), "(Matched 3 / 120 lines)");
    assert_eq!(match_summary(0, 0), "(Matched 0 / 0 lines)");
}
