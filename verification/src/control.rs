//! What the application does with each key press and each background event.
use vstd::prelude::*;

use crate::app::{device_serials, index_in, lemma_index_in, AppState, AppView, lemma_first_index};
use crate::events::{AppEvent, EventView, KeyCode};
use crate::handler::build_tab::{build_action_for, build_outcome, build_command_view, BuildCommand};
use crate::handler::emulator::{emu_action_for, emu_outcome, emu_command_view, EmuCommand};
use crate::handler::logs::{logs_action_for, logs_outcome, LogsCommand};
use crate::handler::{build_tab, emulator, logs};
use crate::model::{display_name_of, opt_view, GradleView, ScreenType, SearchMode, SessionView, TaskStatus};
use crate::text::{decimal, decimal_chars, string_from_chars};

verus! {

/// What a key press leads to.
#[derive(Debug, Clone, PartialEq, Eq)]
pub enum KeyOutcome {
    /// Leave the application.
    Quit,
    /// Outside work for the emulator tab.
    Emu(EmuCommand),
    /// Outside work for the build tab.
    Build(BuildCommand),
    /// Outside work for the logs tab.
    Logs(LogsCommand),
    /// The state changed at most; nothing else to do.
    Nothing,
}

/// The tab that a function key opens.
pub open spec fn screen_for_function_key(n: u8) -> Option<ScreenType> {
    if n == 1 {
        Some(ScreenType::Emu)
    } else if n == 2 {
        Some(ScreenType::Build)
    } else if n == 3 {
        Some(ScreenType::Logs)
    } else {
        None
    }
}

/// A key press that the global keys do not take is handled by the open tab.
pub open spec fn tab_key_outcome(v: AppView, key: KeyCode) -> (AppView, KeyOutcome) {
    match v.screen_type {
        ScreenType::Emu => match emu_action_for(key, v.pane_focus) {
            Some(a) => (emu_outcome(v, a).0, KeyOutcome::Nothing),
            None => (v, KeyOutcome::Nothing),
        },
        ScreenType::Build => match build_action_for(key) {
            Some(a) => (build_outcome(v, a).0, KeyOutcome::Nothing),
            None => (v, KeyOutcome::Nothing),
        },
        ScreenType::Logs => match logs_action_for(key, v.log.search_mode) {
            Some(a) => (logs_outcome(v, a).0, KeyOutcome::Nothing),
            None => (v, KeyOutcome::Nothing),
        },
    }
}

/// The state after a key press. While the logs search bar is edited every
/// key goes to it; otherwise `q` and `Esc` quit, F1 to F3 open the tabs and
/// the open tab handles the rest.
pub open spec fn key_state(v: AppView, key: KeyCode) -> AppView {
    if v.screen_type == ScreenType::Logs && v.log.search_mode == SearchMode::Editing {
        match logs_action_for(key, SearchMode::Editing) {
            Some(a) => logs_outcome(v, a).0,
            None => v,
        }
    } else {
        match key {
            KeyCode::Char('q') | KeyCode::Esc => v,
            KeyCode::F(n) => match screen_for_function_key(n) {
                Some(t) => AppView { screen_type: t, ..v },
                None => tab_key_outcome(v, key).0,
            },
            _ => tab_key_outcome(v, key).0,
        }
    }
}

/// Whether the key press ends the application.
pub open spec fn key_quits(v: AppView, key: KeyCode) -> bool {
    !(v.screen_type == ScreenType::Logs && v.log.search_mode == SearchMode::Editing) && (key
        == KeyCode::Char('q') || key == KeyCode::Esc)
}

/// The key press reaches the open tab's handler (and not a global key).
pub open spec fn key_goes_to_tab(v: AppView, key: KeyCode) -> bool {
    &&& !(v.screen_type == ScreenType::Logs && v.log.search_mode == SearchMode::Editing)
    &&& !key_quits(v, key)
    &&& !(key matches KeyCode::F(n) && screen_for_function_key(n) is Some)
}

/// The outside work a key press asks for, as the tab handlers state it.
pub open spec fn key_work_ok(v: AppView, key: KeyCode, out: KeyOutcome) -> bool {
    if key_quits(v, key) {
        out == KeyOutcome::Quit
    } else if v.screen_type == ScreenType::Logs && v.log.search_mode == SearchMode::Editing {
        out == KeyOutcome::Nothing
    } else if !key_goes_to_tab(v, key) {
        out == KeyOutcome::Nothing
    } else {
        match v.screen_type {
            ScreenType::Emu => match emu_action_for(key, v.pane_focus) {
                Some(a) => match out {
                    KeyOutcome::Emu(c) => emu_outcome(v, a).1 == Some(emu_command_view(c)),
                    KeyOutcome::Nothing => emu_outcome(v, a).1 is None,
                    _ => false,
                },
                None => out == KeyOutcome::Nothing,
            },
            ScreenType::Build => match build_action_for(key) {
                Some(a) => match out {
                    KeyOutcome::Build(c) => build_outcome(v, a).1 == Some(build_command_view(c)),
                    KeyOutcome::Nothing => build_outcome(v, a).1 is None,
                    _ => false,
                },
                None => out == KeyOutcome::Nothing,
            },
            ScreenType::Logs => match logs_action_for(key, v.log.search_mode) {
                Some(a) => match out {
                    KeyOutcome::Logs(LogsCommand::ToggleStream { serial }) => logs_outcome(v, a).1
                        == Some(serial@),
                    KeyOutcome::Nothing => logs_outcome(v, a).1 is None,
                    _ => false,
                },
                None => out == KeyOutcome::Nothing,
            },
        }
    }
}

/// Handles one key press.
pub fn handle_key(state: &mut AppState, key: KeyCode) -> (out: KeyOutcome)
    requires
        old(state)@.wf(),
    ensures
        final(state)@ == key_state(old(state)@, key),
        key_work_ok(old(state)@, key, out),
        final(state)@.wf(),
{
    if state.screen_type == ScreenType::Logs && state.log_state.search_mode == SearchMode::Editing {
        match logs::map_key(key, SearchMode::Editing) {
            Some(action) => {
                let _ = logs::execute_action(action, state);
            },
            None => {},
        }
        return KeyOutcome::Nothing;
    }
    match key {
        KeyCode::Char('q') | KeyCode::Esc => {
            return KeyOutcome::Quit;
        },
        KeyCode::F(1) => {
            state.screen_type = ScreenType::Emu;
            return KeyOutcome::Nothing;
        },
        KeyCode::F(2) => {
            state.screen_type = ScreenType::Build;
            return KeyOutcome::Nothing;
        },
        KeyCode::F(3) => {
            state.screen_type = ScreenType::Logs;
            return KeyOutcome::Nothing;
        },
        _ => {},
    }
    match state.screen_type {
        ScreenType::Emu => match emulator::map_key(key, state.pane_focus) {
            Some(action) => match emulator::execute_action(action, state) {
                Some(c) => KeyOutcome::Emu(c),
                None => KeyOutcome::Nothing,
            },
            None => KeyOutcome::Nothing,
        },
        ScreenType::Build => match build_tab::map_key(key) {
            Some(action) => match build_tab::execute_action(action, state) {
                Some(c) => KeyOutcome::Build(c),
                None => KeyOutcome::Nothing,
            },
            None => KeyOutcome::Nothing,
        },
        ScreenType::Logs => {
            let mode = state.log_state.search_mode;
            match logs::map_key(key, mode) {
                Some(action) => match logs::execute_action(action, state) {
                    Some(c) => KeyOutcome::Logs(c),
                    None => KeyOutcome::Nothing,
                },
                None => KeyOutcome::Nothing,
            }
        },
    }
}

/// Outside work that a background event asks for.
#[derive(Debug, Clone, PartialEq, Eq)]
pub enum Effect {
    /// Start streaming the device's logcat (unless a stream runs already).
    StartLogcatStream { serial: String },
    /// Look up the process id of the package on the device.
    ResolveAppPid { serial: String, package: String },
}

/// The label that tells which version was deployed.
pub open spec fn version_label(name: Option<Seq<char>>, code: Option<Seq<char>>) -> Seq<char> {
    match (name, code) {
        (Some(v), Some(c)) => " (v"@ + v + ", code "@ + c + ")"@,
        (Some(v), None) => " (v"@ + v + ")"@,
        _ => seq![],
    }
}

/// The name under which a deployed-to device's logs are shown: that of the
/// first running device with the serial, or the serial itself.
pub open spec fn deployed_device_name(v: AppView, serial: Seq<char>) -> Seq<char> {
    let k = index_in(device_serials(v.running_devices), serial);
    if k >= 0 {
        let d = v.running_devices[k];
        display_name_of(d.serial@, opt_view(d.model))
    } else {
        serial
    }
}

/// The session of a device that an app was deployed to: it remembers the
/// package and, without a query of its own, filters for the package.
pub open spec fn session_for_package(s: SessionView, package: Option<Seq<char>>) -> SessionView {
    match package {
        Some(p) => SessionView {
            app_package: Some(p),
            search_query: if s.search_query.len() == 0 {
                "package:"@ + p
            } else {
                s.search_query
            },
            ..s
        },
        None => s,
    }
}

/// The state after an app was deployed: the logs tab opens on the device,
/// whose session filters for the package, and the activity log says so.
pub open spec fn after_deploy(
    v: AppView,
    serial: Seq<char>,
    package: Option<Seq<char>>,
    version_name: Option<Seq<char>>,
    version_code: Option<Seq<char>>,
) -> AppView {
    let v1 = AppView { screen_type: ScreenType::Logs, ..v }.with_active_serial(Some(serial));
    let v2 = v1.ensure_session(serial, deployed_device_name(v, serial));
    let i = v2.session_of(serial);
    let v3 = v2.with_session(i, session_for_package(v2.log.sessions[i], package));
    v3.with_status_line(
        "APK deployed"@ + version_label(version_name, version_code) + " to '"@ + serial
            + "'. Streaming logcat in Logs tab."@,
    )
}

/// The state after the process id of a deployed app became known: its
/// session filters by it too, and the activity log says so.
pub open spec fn after_pid(v: AppView, serial: Seq<char>, package: Seq<char>, pid: u32) -> AppView {
    let i = v.session_of(serial);
    let v1 = if i >= 0 {
        let s = SessionView { app_pid: Some(pid), ..v.log.sessions[i] };
        let s2 = if s.auto_scroll {
            SessionView { scroll_offset: s.shown().len() as usize, ..s }
        } else {
            s
        };
        v.with_session(i, s2)
    } else {
        v
    };
    v1.with_status_line(
        "Active process for '"@ + package + "' attached [PID: "@ + decimal(pid as nat) + "]."@,
    )
}

/// The state after a background event; `now_ms` is the time it is handled at.
pub open spec fn event_state(v: AppView, event: AppEvent, now_ms: u64) -> AppView {
    match event {
        AppEvent::DevicesRefreshed { avds, devices } => v.after_refresh(avds@, devices@),
        AppEvent::StatusLog(msg) => v.with_status_line(msg@),
        AppEvent::ActionStarted(msg) => AppView {
            is_busy: true,
            current_action: Some(msg@),
            ..v
        }.with_status_line(">>> "@ + msg@),
        AppEvent::ActionFinished { action, success, message } => AppView {
            is_busy: false,
            current_action: None,
            ..v
        }.with_status_line(
            (if success {
                "✔ ["@
            } else {
                "✘ ["@
            }) + action@ + "] "@ + message@,
        ),
        AppEvent::GradleLogLine(line) => v.gradle_line_appended(line@),
        AppEvent::GradleTaskStarted(name) => v.with_gradle(
            GradleView {
                active_task_name: Some(name@),
                status: TaskStatus::Running { started_at_ms: now_ms },
                ..v.gradle
            },
        ),
        AppEvent::GradleTaskFinished { task, success, exit_code, duration_ms, apk_path } => v.with_gradle(
            GradleView {
                status: if success {
                    TaskStatus::Success { duration_ms }
                } else {
                    TaskStatus::Failed { exit_code, duration_ms }
                },
                apk_path: if apk_path is Some {
                    opt_view(apk_path)
                } else {
                    v.gradle.apk_path
                },
                ..v.gradle
            },
        ),
        AppEvent::GradleTaskCancelled => v.with_gradle(
            GradleView { status: TaskStatus::Cancelled, ..v.gradle },
        ),
        AppEvent::ApkDeployed { serial, package_name, version_name, version_code } => after_deploy(
            v,
            serial@,
            opt_view(package_name),
            opt_view(version_name),
            opt_view(version_code),
        ),
        AppEvent::AppPidResolved { serial, package_name, pid } => after_pid(
            v,
            serial@,
            package_name@,
            pid,
        ),
        AppEvent::LogcatLine { serial, line } => {
            let e = v.ensure_session(serial@, seq![]);
            let i = e.session_of(serial@);
            e.with_session(i, crate::app::session_after_line(e.log.sessions[i], line@))
        },
        AppEvent::LogcatStreamStatus { serial, is_streaming } => {
            let i = v.session_of(serial@);
            if i >= 0 {
                v.with_session(i, SessionView { is_streaming, ..v.log.sessions[i] })
            } else {
                v
            }
        },
        AppEvent::Tick => v,
    }
}

/// The outside work an event asks for: after a deployment, the process id
/// of the package is looked up (when the package is known) and the device's
/// logcat stream is started; no other event asks for any.
pub open spec fn event_effects_ok(event: AppEvent, effects: Seq<Effect>) -> bool {
    match event {
        AppEvent::ApkDeployed { serial, package_name, .. } => match package_name {
            Some(p) => effects.len() == 2 && (effects[0] matches Effect::ResolveAppPid {
                serial: s,
                package: q,
            } && s@ == serial@ && q@ == p@) && (effects[1] matches Effect::StartLogcatStream {
                serial: s,
            } && s@ == serial@),
            None => effects.len() == 1 && (effects[0] matches Effect::StartLogcatStream {
                serial: s,
            } && s@ == serial@),
        },
        _ => effects.len() == 0,
    }
}

fn version_label_exec(name: &Option<String>, code: &Option<String>) -> (s: String)
    ensures
        s@ == version_label(opt_view(*name), opt_view(*code)),
{
    match (name, code) {
        (Some(v), Some(c)) => " (v".to_owned().concat(v.as_str()).concat(", code ").concat(
            c.as_str(),
        ).concat(")"),
        (Some(v), None) => " (v".to_owned().concat(v.as_str()).concat(")"),
        _ => String::new(),
    }
}

/// Handles one background event and returns the outside work it asks for.
pub fn handle_event(state: &mut AppState, event: AppEvent, now_ms: u64) -> (effects: Vec<Effect>)
    requires
        old(state)@.wf(),
    ensures
        final(state)@ == event_state(old(state)@, event, now_ms),
        event_effects_ok(event, effects@),
        final(state)@.wf(),
{
    let mut effects: Vec<Effect> = Vec::new();
    match event {
        AppEvent::DevicesRefreshed { avds, devices } => {
            state.update_devices(avds, devices);
        },
        AppEvent::StatusLog(msg) => {
            state.add_log(msg);
        },
        AppEvent::ActionStarted(msg) => {
            state.is_busy = true;
            state.current_action = Some(msg.clone());
            state.add_log(">>> ".to_owned().concat(msg.as_str()));
        },
        AppEvent::ActionFinished { action, success, message } => {
            state.is_busy = false;
            state.current_action = None;
            let head = if success {
                "✔ [".to_owned()
            } else {
                "✘ [".to_owned()
            };
            state.add_log(head.concat(action.as_str()).concat("] ").concat(message.as_str()));
        },
        AppEvent::GradleLogLine(line) => {
            state.append_gradle_line(line);
        },
        AppEvent::GradleTaskStarted(name) => {
            state.gradle_state.active_task_name = Some(name);
            state.gradle_state.status = TaskStatus::Running { started_at_ms: now_ms };
        },
        AppEvent::GradleTaskFinished { task: _, success, exit_code, duration_ms, apk_path } => {
            if success {
                state.gradle_state.status = TaskStatus::Success { duration_ms };
            } else {
                state.gradle_state.status = TaskStatus::Failed { exit_code, duration_ms };
            }
            match apk_path {
                Some(path) => {
                    state.gradle_state.apk_path = Some(path);
                },
                None => {},
            }
        },
        AppEvent::GradleTaskCancelled => {
            state.gradle_state.status = TaskStatus::Cancelled;
        },
        AppEvent::ApkDeployed { serial, package_name, version_name, version_code } => {
            let ghost v = state@;
            state.screen_type = ScreenType::Logs;
            state.select_log_device(serial.as_str());
            let name = deployed_name(state, &serial);
            let session = state.get_or_create_log_session(serial.as_str(), name.as_str());
            match &package_name {
                Some(pkg) => {
                    session.app_package = Some(pkg.clone());
                    if session.search_query.as_str().is_empty() {
                        session.search_query = "package:".to_owned().concat(pkg.as_str());
                    }
                },
                None => {},
            }
            proof {
                let v2 = AppView { screen_type: ScreenType::Logs, ..v }.with_active_serial(
                    Some(serial@),
                ).ensure_session(serial@, name@);
                let i = v2.session_of(serial@);
                crate::app::lemma_index_in(crate::app::serials_of(v2.log.sessions), serial@);
                assert(state@.log.sessions =~= v2.log.sessions.update(
                    i,
                    session_for_package(v2.log.sessions[i], opt_view(package_name)),
                ));
                assert(crate::app::serials_of(state@.log.sessions) =~= crate::app::serials_of(
                    v2.log.sessions,
                ));
                state.lemma_session_replaced(v2, i);
            }
            match &package_name {
                Some(pkg) => {
                    effects.push(
                        Effect::ResolveAppPid { serial: serial.clone(), package: pkg.clone() },
                    );
                },
                None => {},
            }
            effects.push(Effect::StartLogcatStream { serial: serial.clone() });
            let label = version_label_exec(&version_name, &version_code);
            let msg = "APK deployed".to_owned().concat(label.as_str()).concat(" to '").concat(
                serial.as_str(),
            ).concat("'. Streaming logcat in Logs tab.");
            state.add_log(msg);
        },
        AppEvent::AppPidResolved { serial, package_name, pid } => {
            match state.find_session(serial.as_str()) {
                Some(i) => {
                    let ghost v = state@;
                    let session = &mut state.log_state.sessions[i];
                    session.app_pid = Some(pid);
                    if session.auto_scroll {
                        session.scroll_offset = session.filtered_count();
                    }
                    proof {
                        state.lemma_session_replaced(v, i as int);
                    }
                },
                None => {},
            }
            let digits = decimal_chars(pid);
            let pid_text = string_from_chars(digits.as_slice());
            let msg = "Active process for '".to_owned().concat(package_name.as_str()).concat(
                "' attached [PID: ",
            ).concat(pid_text.as_str()).concat("].");
            state.add_log(msg);
        },
        AppEvent::LogcatLine { serial, line } => {
            state.append_logcat_line(serial.as_str(), line);
        },
        AppEvent::LogcatStreamStatus { serial, is_streaming } => {
            match state.find_session(serial.as_str()) {
                Some(i) => {
                    let ghost v = state@;
                    state.log_state.sessions[i].is_streaming = is_streaming;
                    proof {
                        state.lemma_session_replaced(v, i as int);
                    }
                },
                None => {},
            }
        },
        AppEvent::Tick => {},
    }
    effects
}

/// The display name for the logs of a device that an app was deployed to.
fn deployed_name(state: &AppState, serial: &String) -> (name: String)
    ensures
        name@ == deployed_device_name(state@, serial@),
{
    let ghost ds = device_serials(state@.running_devices);
    let n = state.running_devices.len();
    let mut i: usize = 0;
    while i < n
        invariant
            i <= n,
            n == state.running_devices@.len(),
            ds == device_serials(state@.running_devices),
            forall|j: int| 0 <= j < i ==> #[trigger] ds[j] != serial@,
        decreases n - i,
    {
        if state.running_devices[i].serial == *serial {
            proof {
                assert(ds[i as int] == serial@);
                lemma_first_index(ds, serial@, i as int);
            }
            return state.running_devices[i].display_name();
        }
        i = i + 1;
    }
    proof {
        lemma_index_in(ds, serial@);
        if index_in(ds, serial@) >= 0 {
            assert(ds[index_in(ds, serial@)] == serial@);
        }
    }
    serial.clone()
}

/// Queued events handled at most at once after a logcat line, before the
/// screen is drawn again.
pub const BATCH_EVENTS: usize = 200;

/// Whether an event drawn from the queue while logcat lines are handled in a
/// batch is handled; the others are dropped. Only a logcat line lets the
/// batch go on.
pub open spec fn kept_in_batch(e: EventView) -> bool {
    ||| e is LogcatLine
    ||| e is DevicesRefreshed
    ||| e is StatusLog
    ||| e is AppPidResolved
    ||| e is LogcatStreamStatus
}

/// Whether a queued event is handled during a batch of logcat lines.
pub fn handled_in_batch(event: &AppEvent) -> (b: bool)
    ensures
        b == kept_in_batch(event@),
{
    match event {
        AppEvent::LogcatLine { .. } | AppEvent::DevicesRefreshed { .. } | AppEvent::StatusLog(_)
        | AppEvent::AppPidResolved { .. } | AppEvent::LogcatStreamStatus { .. } => true,
        _ => false,
    }
}

/// Attempts at finding the process id of a freshly deployed app.
pub const PID_ATTEMPTS: u32 = 10;

/// The wait before an attempt at finding the process id: 200 ms before the
/// first, 500 ms before each later one, and no attempt after the last.
pub fn pid_poll_delay_ms(attempt: u32) -> (d: Option<u64>)
    ensures
        d == (if attempt == 0 {
            Some(200u64)
        } else if attempt < PID_ATTEMPTS {
            Some(500u64)
        } else {
            None::<u64>
        }),
{
    if attempt == 0 {
        Some(200)
    } else if attempt < PID_ATTEMPTS {
        Some(500)
    } else {
        None
    }
}

} // verus!
