use ast::android::deploy::{
    detect_package_name, DeployAction, DeployEvent, DeployPhase, DeployRun, LaunchAction,
    LaunchEvent, LaunchPhase, LaunchRun,
};
use ast::android::gradle::{GradleRun, GradleRunAction, GradleRunEvent, GradleRunPhase};
use ast::control::{handled_in_batch, pid_poll_delay_ms};
use ast::events::AppEvent;

fn s(x: &str) -> String {
    x.to_string()
}

fn finished(success: bool, exit_code: Option<i32>, duration_ms: u64, apk: Option<&str>) -> AppEvent {
    AppEvent::GradleTaskFinished {
        task: s("Assemble Debug"),
        success,
        exit_code,
        duration_ms,
        apk_path: apk.map(s),
    }
}

#[test]
fn gradle_run_without_wrapper() {
    let mut run = GradleRun::new(vec![s("assembleDebug")], s("Assemble Debug"));
    let (events, action) = run.step(GradleRunEvent::WrapperChecked { exists: false });
    assert_eq!(action, GradleRunAction::Finish);
    assert_eq!(run.phase, GradleRunPhase::Done);
    assert_eq!(
        events,
        vec![
            AppEvent::GradleTaskStarted(s("Assemble Debug")),
            AppEvent::GradleLogLine(s("Error: No './gradlew' found in current directory.")),
            AppEvent::GradleLogLine(s(
                "Please run 'ast' from the root of an Android/Gradle project containing './gradlew'."
            )),
            finished(false, Some(1), 0, None),
        ]
    );
}

#[test]
fn gradle_run_that_builds_an_apk() {
    let mut run = GradleRun::new(vec![s("assembleDebug"), s("--console=plain")], s("Assemble Debug"));
    let (events, action) = run.step(GradleRunEvent::WrapperChecked { exists: true });
    assert_eq!(action, GradleRunAction::Spawn);
    assert_eq!(
        events,
        vec![
            AppEvent::GradleTaskStarted(s("Assemble Debug")),
            AppEvent::GradleLogLine(s("$ ./gradlew assembleDebug --console=plain")),
        ]
    );
    let (events, action) = run.step(GradleRunEvent::Spawned);
    assert!(events.is_empty());
    assert_eq!(action, GradleRunAction::AwaitExit);
    let (events, action) =
        run.step(GradleRunEvent::Exited { success: true, exit_code: Some(0), elapsed_ms: 4200 });
    assert!(events.is_empty());
    assert_eq!(action, GradleRunAction::LocateApk);
    let (events, action) = run.step(GradleRunEvent::ApkLocated {
        apk: Some((s("app/build/outputs/apk/debug/app-debug.apk"), s("✔ APK generated: x (1.00 MB)"))),
    });
    assert_eq!(action, GradleRunAction::Finish);
    assert_eq!(
        events,
        vec![
            AppEvent::GradleLogLine(s("✔ APK generated: x (1.00 MB)")),
            finished(true, Some(0), 4200, Some("app/build/outputs/apk/debug/app-debug.apk")),
        ]
    );
    // a finished run ignores further reports
    let (events, action) = run.step(GradleRunEvent::Spawned);
    assert!(events.is_empty());
    assert_eq!(action, GradleRunAction::Finish);
}

#[test]
fn gradle_run_failures() {
    let mut run = GradleRun::new(vec![s("clean")], s("Assemble Debug"));
    run.step(GradleRunEvent::WrapperChecked { exists: true });
    let (events, action) =
        run.step(GradleRunEvent::SpawnFailed { error: s("permission denied"), elapsed_ms: 3 });
    assert_eq!(action, GradleRunAction::Finish);
    assert_eq!(
        events,
        vec![
            AppEvent::GradleLogLine(s("Failed to spawn './gradlew': permission denied")),
            finished(false, None, 3, None),
        ]
    );

    let mut run = GradleRun::new(vec![s("assembleDebug")], s("Assemble Debug"));
    run.step(GradleRunEvent::WrapperChecked { exists: true });
    run.step(GradleRunEvent::Spawned);
    let (events, _) =
        run.step(GradleRunEvent::Exited { success: false, exit_code: Some(1), elapsed_ms: 9 });
    assert_eq!(events, vec![finished(false, Some(1), 9, None)]);

    let mut run = GradleRun::new(vec![s("clean")], s("Assemble Debug"));
    run.step(GradleRunEvent::WrapperChecked { exists: true });
    run.step(GradleRunEvent::Spawned);
    // a task that builds no APK finishes at once
    let (events, action) =
        run.step(GradleRunEvent::Exited { success: true, exit_code: Some(0), elapsed_ms: 9 });
    assert_eq!(action, GradleRunAction::Finish);
    assert_eq!(events, vec![finished(true, Some(0), 9, None)]);

    let mut run = GradleRun::new(vec![s("clean")], s("Assemble Debug"));
    run.step(GradleRunEvent::WrapperChecked { exists: true });
    run.step(GradleRunEvent::Spawned);
    let (events, _) = run.step(GradleRunEvent::WaitFailed { error: s("gone"), elapsed_ms: 1 });
    assert_eq!(
        events,
        vec![AppEvent::GradleLogLine(s("Gradle process error: gone")), finished(false, None, 1, None)]
    );
}

#[test]
fn launch_tries_components_then_monkey() {
    let mut run = LaunchRun::new(s("emulator-5554"), s("com.example"));
    let out = "priority=0 preferredOrder=0\n/.Main\ncom.example/.Second\n";
    let a = run.step(LaunchEvent::Resolved { output: s(out) });
    assert_eq!(a, LaunchAction::StartActivity(s("com.example/.Main")));
    let a = run.step(LaunchEvent::StartFinished { success: false });
    assert_eq!(a, LaunchAction::StartActivity(s("com.example/.Second")));
    let a = run.step(LaunchEvent::StartFinished { success: false });
    assert_eq!(a, LaunchAction::Monkey);
    let a = run.step(LaunchEvent::MonkeyFinished { success: false, stderr: s("no activities") });
    assert_eq!(a, LaunchAction::Finish);
    assert_eq!(run.phase, LaunchPhase::Done);
    assert_eq!(run.result, Some(Err(s("App launch failed: no activities"))));
}

#[test]
fn launch_outcomes() {
    let mut run = LaunchRun::new(s("emulator-5554"), s("com.example"));
    run.step(LaunchEvent::Resolved { output: s("com.example/.Main\n") });
    assert_eq!(run.step(LaunchEvent::StartFinished { success: true }), LaunchAction::Finish);
    assert_eq!(run.result, Some(Ok(s("Launched 'com.example' on 'emulator-5554'"))));

    let mut run = LaunchRun::new(s("emulator-5554"), s("com.example"));
    assert_eq!(run.step(LaunchEvent::Resolved { output: s("") }), LaunchAction::Monkey);
    assert_eq!(run.step(LaunchEvent::MonkeyFinished { success: true, stderr: s("") }), LaunchAction::Finish);
    assert_eq!(run.result, Some(Ok(s("Launched 'com.example' on 'emulator-5554'"))));

    let mut run = LaunchRun::new(s("emulator-5554"), s("com.example"));
    run.step(LaunchEvent::Resolved { output: s("No activity found") });
    run.step(LaunchEvent::MonkeyFailed { error: s("adb missing") });
    assert_eq!(run.result, Some(Err(s("Failed to launch app via monkey: adb missing"))));
}

fn finished_action(action: &str, success: bool, message: &str) -> AppEvent {
    AppEvent::ActionFinished { action: s(action), success, message: s(message) }
}

#[test]
fn deploy_run_full_path() {
    let mut run = DeployRun::new(s("emulator-5554"));
    let (e, a) = run.step(DeployEvent::WrapperChecked { exists: true });
    assert!(e.is_empty());
    assert_eq!(a, DeployAction::DetectPackage);
    let (e, a) = run.step(DeployEvent::PackageDetected { package: Some(s("com.example.flocky")) });
    assert_eq!(a, DeployAction::SpawnBuild);
    assert_eq!(e, vec![AppEvent::ActionStarted(s("Building debug APK for target 'emulator-5554'..."))]);
    let (_, a) = run.step(DeployEvent::BuildSpawned);
    assert_eq!(a, DeployAction::AwaitBuild);
    let (e, a) = run.step(DeployEvent::BuildOutput { line: s("  > Task :app:assembleDebug  ") });
    assert_eq!(a, DeployAction::AwaitBuild);
    assert_eq!(e, vec![AppEvent::StatusLog(s("[gradle] > Task :app:assembleDebug"))]);
    let (e, _) = run.step(DeployEvent::BuildOutput { line: s("   ") });
    assert!(e.is_empty());
    let (e, a) = run.step(DeployEvent::BuildExited { success: true, exit_code: Some(0) });
    assert_eq!(a, DeployAction::Install);
    assert_eq!(e, vec![AppEvent::StatusLog(s("Gradle build succeeded. Installing on target..."))]);
    let (e, a) = run.step(DeployEvent::InstallFinished { success: true, stderr: s("") });
    assert!(e.is_empty());
    assert_eq!(a, DeployAction::QueryInfo);
    let (e, a) = run.step(DeployEvent::InfoQueried {
        version_name: Some(s("1.0")),
        version_code: Some(s("3")),
        last_update: None,
    });
    assert_eq!(a, DeployAction::Launch);
    assert_eq!(
        e,
        vec![AppEvent::StatusLog(s(
            "App 'com.example.flocky' is updated on 'emulator-5554': v1.0 (code 3)"
        ))]
    );
    let (e, a) = run.step(DeployEvent::LaunchFinished { result: Err(s("boom")) });
    assert_eq!(a, DeployAction::Finish);
    assert_eq!(run.phase, DeployPhase::Done);
    assert_eq!(
        e,
        vec![
            AppEvent::StatusLog(s("Could not auto-launch app: boom")),
            finished_action(
                "Build & Deploy",
                true,
                "Successfully deployed and launched 'com.example.flocky' (version: 1.0) on 'emulator-5554'."
            ),
            AppEvent::ApkDeployed {
                serial: s("emulator-5554"),
                package_name: Some(s("com.example.flocky")),
                version_name: Some(s("1.0")),
                version_code: Some(s("3")),
            },
        ]
    );
}

#[test]
fn deploy_run_without_package() {
    let mut run = DeployRun::new(s("R58M"));
    run.step(DeployEvent::WrapperChecked { exists: true });
    run.step(DeployEvent::PackageDetected { package: None });
    run.step(DeployEvent::BuildSpawned);
    run.step(DeployEvent::BuildExited { success: true, exit_code: Some(0) });
    let (e, a) = run.step(DeployEvent::InstallFinished { success: true, stderr: s("") });
    assert_eq!(a, DeployAction::Finish);
    assert_eq!(
        e,
        vec![
            finished_action("Build & Deploy", true, "Successfully deployed debug APK to target 'R58M'."),
            AppEvent::ApkDeployed {
                serial: s("R58M"),
                package_name: None,
                version_name: None,
                version_code: None,
            },
        ]
    );
}

#[test]
fn deploy_run_failures() {
    let mut run = DeployRun::new(s("R58M"));
    let (e, a) = run.step(DeployEvent::WrapperChecked { exists: false });
    assert_eq!(a, DeployAction::Finish);
    assert_eq!(
        e,
        vec![finished_action(
            "Build & Deploy",
            false,
            "No ./gradlew found in current directory. Run from an Android project root."
        )]
    );

    let mut run = DeployRun::new(s("R58M"));
    run.step(DeployEvent::WrapperChecked { exists: true });
    run.step(DeployEvent::PackageDetected { package: None });
    let (e, _) = run.step(DeployEvent::BuildSpawnFailed { error: s("no such file") });
    assert_eq!(e, vec![finished_action("assembleDebug", false, "Failed to spawn ./gradlew: no such file")]);

    let mut run = DeployRun::new(s("R58M"));
    run.step(DeployEvent::WrapperChecked { exists: true });
    run.step(DeployEvent::PackageDetected { package: None });
    run.step(DeployEvent::BuildSpawned);
    let (e, _) = run.step(DeployEvent::BuildExited { success: false, exit_code: Some(-1) });
    assert_eq!(
        e,
        vec![finished_action("assembleDebug", false, "Gradle assembleDebug failed with exit code: Some(-1)")]
    );

    let mut run = DeployRun::new(s("R58M"));
    run.step(DeployEvent::WrapperChecked { exists: true });
    run.step(DeployEvent::PackageDetected { package: None });
    run.step(DeployEvent::BuildSpawned);
    let (e, _) = run.step(DeployEvent::BuildExited { success: false, exit_code: None });
    assert_eq!(
        e,
        vec![finished_action("assembleDebug", false, "Gradle assembleDebug failed with exit code: None")]
    );

    let mut run = DeployRun::new(s("R58M"));
    run.step(DeployEvent::WrapperChecked { exists: true });
    run.step(DeployEvent::PackageDetected { package: None });
    run.step(DeployEvent::BuildSpawned);
    let (e, _) = run.step(DeployEvent::BuildExited { success: false, exit_code: Some(i32::MIN) });
    assert_eq!(
        e,
        vec![finished_action(
            "assembleDebug",
            false,
            "Gradle assembleDebug failed with exit code: Some(-2147483648)"
        )]
    );

    let mut run = DeployRun::new(s("R58M"));
    run.step(DeployEvent::WrapperChecked { exists: true });
    run.step(DeployEvent::PackageDetected { package: None });
    run.step(DeployEvent::BuildSpawned);
    let (e, _) = run.step(DeployEvent::BuildWaitFailed { error: s("killed") });
    assert_eq!(e, vec![finished_action("assembleDebug", false, "Failed to run assembleDebug: killed")]);

    let mut run = DeployRun::new(s("R58M"));
    run.step(DeployEvent::WrapperChecked { exists: true });
    run.step(DeployEvent::PackageDetected { package: None });
    run.step(DeployEvent::BuildSpawned);
    run.step(DeployEvent::BuildExited { success: true, exit_code: Some(0) });
    let (e, _) = run.step(DeployEvent::InstallFinished { success: false, stderr: s("INSTALL_FAILED") });
    assert_eq!(e, vec![finished_action("installDebug", false, "installDebug failed: INSTALL_FAILED")]);

    let mut run = DeployRun::new(s("R58M"));
    run.step(DeployEvent::WrapperChecked { exists: true });
    run.step(DeployEvent::PackageDetected { package: None });
    run.step(DeployEvent::BuildSpawned);
    run.step(DeployEvent::BuildExited { success: true, exit_code: Some(0) });
    let (e, _) = run.step(DeployEvent::InstallFailed { error: s("spawn") });
    assert_eq!(e, vec![finished_action("installDebug", false, "Failed to execute installDebug: spawn")]);

    // an event the phase does not wait for changes nothing
    let mut run = DeployRun::new(s("R58M"));
    let (e, a) = run.step(DeployEvent::BuildSpawned);
    assert!(e.is_empty());
    assert_eq!(a, DeployAction::CheckWrapper);
    assert_eq!(run.phase, DeployPhase::CheckingWrapper);
}

#[test]
fn package_detection_order() {
    let gradle = vec![None, Some(s("compileSdk = 35\n")), Some(s("namespace = \"com.b\"\n")), None];
    let manifests = vec![Some(s("<manifest package=\"com.m\">"))];
    assert_eq!(detect_package_name(&gradle, &manifests), Some(s("com.b")));
    assert_eq!(detect_package_name(&vec![None, None], &manifests), Some(s("com.m")));
    assert_eq!(detect_package_name(&vec![], &vec![None, Some(s("<manifest>"))]), None);
}

#[test]
fn pid_polling_schedule() {
    assert_eq!(pid_poll_delay_ms(0), Some(200));
    assert_eq!(pid_poll_delay_ms(1), Some(500));
    assert_eq!(pid_poll_delay_ms(9), Some(500));
    assert_eq!(pid_poll_delay_ms(10), None);
}

#[test]
fn batch_keeps_some_events() {
    assert!(handled_in_batch(&AppEvent::LogcatLine { serial: s("a"), line: s("b") }));
    assert!(handled_in_batch(&AppEvent::StatusLog(s("x"))));
    assert!(handled_in_batch(&AppEvent::LogcatStreamStatus { serial: s("a"), is_streaming: false }));
    assert!(!handled_in_batch(&AppEvent::GradleLogLine(s("x"))));
    assert!(!handled_in_batch(&AppEvent::Tick));
}
