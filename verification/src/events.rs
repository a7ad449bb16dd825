//! What reaches the application from outside: background events and keys.
use vstd::prelude::*;

use crate::model::{opt_view, AvdInfo, DeviceTarget};

verus! {

/// Results and progress reports of background work. Durations are in
/// milliseconds.
#[derive(Debug, PartialEq)]
#[allow(inconsistent_fields)]
pub enum AppEvent {
    DevicesRefreshed { avds: Vec<AvdInfo>, devices: Vec<DeviceTarget> },
    StatusLog(String),
    ActionStarted(String),
    ActionFinished { action: String, success: bool, message: String },
    GradleLogLine(String),
    GradleTaskStarted(String),
    GradleTaskFinished {
        task: String,
        success: bool,
        exit_code: Option<i32>,
        duration_ms: u64,
        apk_path: Option<String>,
    },
    GradleTaskCancelled,
    ApkDeployed {
        serial: String,
        package_name: Option<String>,
        version_name: Option<String>,
        version_code: Option<String>,
    },
    AppPidResolved { serial: String, package_name: String, pid: u32 },
    LogcatLine { serial: String, line: String },
    LogcatStreamStatus { serial: String, is_streaming: bool },
    Tick,
}

/// An event with its text taken as characters.
#[allow(inconsistent_fields)]
pub enum EventView {
    DevicesRefreshed { avds: Seq<AvdInfo>, devices: Seq<DeviceTarget> },
    StatusLog(Seq<char>),
    ActionStarted(Seq<char>),
    ActionFinished { action: Seq<char>, success: bool, message: Seq<char> },
    GradleLogLine(Seq<char>),
    GradleTaskStarted(Seq<char>),
    GradleTaskFinished {
        task: Seq<char>,
        success: bool,
        exit_code: Option<i32>,
        duration_ms: u64,
        apk_path: Option<Seq<char>>,
    },
    GradleTaskCancelled,
    ApkDeployed {
        serial: Seq<char>,
        package_name: Option<Seq<char>>,
        version_name: Option<Seq<char>>,
        version_code: Option<Seq<char>>,
    },
    AppPidResolved { serial: Seq<char>, package_name: Seq<char>, pid: u32 },
    LogcatLine { serial: Seq<char>, line: Seq<char> },
    LogcatStreamStatus { serial: Seq<char>, is_streaming: bool },
    Tick,
}

impl View for AppEvent {
    type V = EventView;

    open spec fn view(&self) -> EventView {
        match self {
            AppEvent::DevicesRefreshed { avds, devices } => EventView::DevicesRefreshed {
                avds: avds@,
                devices: devices@,
            },
            AppEvent::StatusLog(m) => EventView::StatusLog(m@),
            AppEvent::ActionStarted(m) => EventView::ActionStarted(m@),
            AppEvent::ActionFinished { action, success, message } => EventView::ActionFinished {
                action: action@,
                success: *success,
                message: message@,
            },
            AppEvent::GradleLogLine(l) => EventView::GradleLogLine(l@),
            AppEvent::GradleTaskStarted(n) => EventView::GradleTaskStarted(n@),
            AppEvent::GradleTaskFinished { task, success, exit_code, duration_ms, apk_path } =>
                EventView::GradleTaskFinished {
                task: task@,
                success: *success,
                exit_code: *exit_code,
                duration_ms: *duration_ms,
                apk_path: opt_view(*apk_path),
            },
            AppEvent::GradleTaskCancelled => EventView::GradleTaskCancelled,
            AppEvent::ApkDeployed { serial, package_name, version_name, version_code } =>
                EventView::ApkDeployed {
                serial: serial@,
                package_name: opt_view(*package_name),
                version_name: opt_view(*version_name),
                version_code: opt_view(*version_code),
            },
            AppEvent::AppPidResolved { serial, package_name, pid } => EventView::AppPidResolved {
                serial: serial@,
                package_name: package_name@,
                pid: *pid,
            },
            AppEvent::LogcatLine { serial, line } => EventView::LogcatLine {
                serial: serial@,
                line: line@,
            },
            AppEvent::LogcatStreamStatus { serial, is_streaming } => EventView::LogcatStreamStatus {
                serial: serial@,
                is_streaming: *is_streaming,
            },
            AppEvent::Tick => EventView::Tick,
        }
    }
}

/// The views of a list of events.
pub open spec fn event_views(v: Seq<AppEvent>) -> Seq<EventView> {
    v.map_values(|e: AppEvent| e@)
}

/// A key of the keyboard, as the terminal reports it.
#[derive(Debug, Clone, Copy, PartialEq, Eq, Structural)]
pub enum KeyCode {
    Backspace,
    Enter,
    Left,
    Right,
    Up,
    Down,
    Home,
    End,
    PageUp,
    PageDown,
    Tab,
    BackTab,
    Delete,
    Insert,
    F(u8),
    Char(char),
    Null,
    Esc,
    /// Any other key.
    Other,
}

} // verus!
