//! The application state and every change that the user or a background
//! task makes to it.
use std::collections::VecDeque;

use vstd::prelude::*;

use crate::android::logcat::{log_file_of, log_file_path};
use crate::model::{
    default_tasks, display_name_of, fresh_session, opt_view, views, AvdInfo,
    DeviceLogSession, DeviceTarget, GradleState, GradleView, LogState, LogView, PaneFocus,
    ScreenType, SearchMode, SessionView, TaskStatus, MAX_SESSION_LINES, SESSION_DRAIN,
};
use crate::text::{contains, has_substring, lines, split_lines, string_from_chars, to_chars};

verus! {

/// Most lines the activity log keeps.
pub const MAX_STATUS_LOGS: usize = 200;

/// Most lines restored from a device's log file.
pub const RESTORED_LINES: usize = 1_000;

// ---------------------------------------------------------------------------
// Specifications
// ---------------------------------------------------------------------------

/// Index of the first occurrence of `x` in `ss`, or -1.
pub open spec fn index_in(ss: Seq<Seq<char>>, x: Seq<char>) -> int
    decreases ss.len(),
{
    if ss.len() == 0 {
        -1
    } else {
        let r = index_in(ss.drop_last(), x);
        if r >= 0 {
            r
        } else if ss.last() == x {
            ss.len() - 1
        } else {
            -1
        }
    }
}

pub proof fn lemma_index_in(ss: Seq<Seq<char>>, x: Seq<char>)
    ensures
        -1 <= index_in(ss, x) < ss.len(),
        index_in(ss, x) >= 0 ==> ss[index_in(ss, x)] == x,
        index_in(ss, x) == -1 <==> !ss.contains(x),
        index_in(ss, x) == -1 ==> forall|j: int| 0 <= j < ss.len() ==> #[trigger] ss[j] != x,
        forall|j: int| 0 <= j < index_in(ss, x) ==> #[trigger] ss[j] != x,
    decreases ss.len(),
{
    if ss.len() > 0 {
        let init = ss.drop_last();
        lemma_index_in(init, x);
        assert forall|j: int| 0 <= j < ss.len() - 1 implies #[trigger] ss[j] == init[j] by {}
        if index_in(init, x) == -1 && ss.last() != x {
            assert forall|j: int| 0 <= j < ss.len() implies #[trigger] ss[j] != x by {
                if j < ss.len() - 1 {
                    assert(ss[j] == init[j]);
                }
            }
        }
        if index_in(init, x) >= 0 {
            assert(ss.contains(x)) by {
                assert(ss[index_in(init, x)] == x);
            }
        }
        if index_in(ss, x) == -1 {
            assert(!ss.contains(x));
        }
    }
}

/// The first occurrence of `x` is at `i` when no earlier item is `x`.
pub proof fn lemma_first_index(ss: Seq<Seq<char>>, x: Seq<char>, i: int)
    requires
        0 <= i < ss.len(),
        ss[i] == x,
        forall|j: int| 0 <= j < i ==> #[trigger] ss[j] != x,
    ensures
        index_in(ss, x) == i,
{
    lemma_index_in(ss, x);
    assert(ss.contains(x));
    let r = index_in(ss, x);
    if r < i {
        assert(ss[r] != x);
    }
    if r > i {
        assert(ss[i] != x);
    }
}

/// Serials of the log sessions, in order.
pub open spec fn serials_of(sessions: Seq<SessionView>) -> Seq<Seq<char>> {
    sessions.map_values(|s: SessionView| s.serial)
}

/// Serials of the devices, in order.
pub open spec fn device_serials(devices: Seq<DeviceTarget>) -> Seq<Seq<char>> {
    devices.map_values(|d: DeviceTarget| d.serial@)
}

/// The log sessions hold distinct serials and at most `MAX_SESSION_LINES` lines each.
pub open spec fn sessions_wf(sessions: Seq<SessionView>) -> bool {
    &&& serials_of(sessions).no_duplicates()
    &&& forall|i: int|
        0 <= i < sessions.len() ==> (#[trigger] sessions[i]).lines.len() <= MAX_SESSION_LINES
}

/// `x - y`, or 0 when `y` is larger.
pub open spec fn sat_sub(x: int, y: int) -> int {
    if x >= y {
        x - y
    } else {
        0
    }
}

pub open spec fn min(x: int, y: int) -> int {
    if x <= y {
        x
    } else {
        y
    }
}

/// The activity log after `line` is added: the oldest line leaves when the
/// log is full.
pub open spec fn status_after_add(logs: Seq<Seq<char>>, line: Seq<char>) -> Seq<Seq<char>> {
    if logs.len() >= MAX_STATUS_LOGS {
        logs.drop_first().push(line)
    } else {
        logs.push(line)
    }
}

/// The lines of a session after `line` arrives: the oldest `SESSION_DRAIN`
/// lines leave when the session grows past `MAX_SESSION_LINES`.
pub open spec fn lines_after_append(ls: Seq<Seq<char>>, line: Seq<char>) -> Seq<Seq<char>> {
    let grown = ls.push(line);
    if grown.len() > MAX_SESSION_LINES {
        grown.skip(SESSION_DRAIN as int)
    } else {
        grown
    }
}

/// The lines of a session after the saved history is put in front of them.
pub open spec fn lines_after_restore(saved: Seq<char>, ls: Seq<Seq<char>>) -> Seq<Seq<char>> {
    let stored = lines(saved);
    let kept = stored.skip(sat_sub(stored.len() as int, RESTORED_LINES as int));
    let all = kept + ls;
    if all.len() > MAX_SESSION_LINES {
        all.skip(SESSION_DRAIN as int)
    } else {
        all
    }
}

/// A virtual device is running when its name occurs in the serial, the model
/// or the product of one of the listed devices.
pub open spec fn avd_running(name: Seq<char>, devices: Seq<DeviceTarget>) -> bool {
    exists|k: int|
        0 <= k < devices.len() && {
            let d = #[trigger] devices[k];
            ||| has_substring(d.serial@, name)
            ||| (d.model matches Some(m) && has_substring(m@, name))
            ||| (d.product matches Some(p) && has_substring(p@, name))
        }
}

/// Whether some device has the given serial.
fn has_device(devices: &Vec<DeviceTarget>, serial: &String) -> (b: bool)
    ensures
        b == device_serials(devices@).contains(serial@),
{
    let ghost ds = device_serials(devices@);
    let n = devices.len();
    let mut i: usize = 0;
    while i < n
        invariant
            i <= n,
            n == devices@.len(),
            ds == device_serials(devices@),
            forall|j: int| 0 <= j < i ==> #[trigger] ds[j] != serial@,
        decreases n - i,
    {
        if devices[i].serial == *serial {
            assert(ds[i as int] == serial@);
            return true;
        }
        i = i + 1;
    }
    false
}

/// Whether the virtual device `name` matches one of the devices.
fn avd_is_running(name: &String, devices: &Vec<DeviceTarget>) -> (b: bool)
    ensures
        b == avd_running(name@, devices@),
{
    let nv = to_chars(name.as_str());
    let n = devices.len();
    let mut i: usize = 0;
    while i < n
        invariant
            i <= n,
            n == devices@.len(),
            nv@ == name@,
            forall|j: int|
                0 <= j < i ==> !{
                    let d = #[trigger] devices@[j];
                    ||| has_substring(d.serial@, name@)
                    ||| (d.model matches Some(m) && has_substring(m@, name@))
                    ||| (d.product matches Some(p) && has_substring(p@, name@))
                },
        decreases n - i,
    {
        let d = &devices[i];
        let serial = to_chars(d.serial.as_str());
        let mut hit = contains(serial.as_slice(), nv.as_slice());
        if !hit {
            match &d.model {
                Some(m) => {
                    let mv = to_chars(m.as_str());
                    hit = contains(mv.as_slice(), nv.as_slice());
                },
                None => {},
            }
        }
        if !hit {
            match &d.product {
                Some(p) => {
                    let pv = to_chars(p.as_str());
                    hit = contains(pv.as_slice(), nv.as_slice());
                },
                None => {},
            }
        }
        if hit {
            assert(devices@[i as int] == *d);
            return true;
        }
        i = i + 1;
    }
    false
}

/// Making sessions exist changes nothing but the sessions.
pub proof fn lemma_ensure_sessions_frame(v: AppView, devices: Seq<DeviceTarget>)
    ensures
        v.ensure_sessions(devices) == v.with_sessions(v.ensure_sessions(devices).log.sessions),
    decreases devices.len(),
{
    if devices.len() > 0 {
        lemma_ensure_sessions_frame(v, devices.drop_last());
    }
}

// ---------------------------------------------------------------------------
// The state and its view
// ---------------------------------------------------------------------------

/// The application state with every string taken by its characters.
#[verifier::ext_equal]
pub struct AppView {
    pub project_dir: Seq<char>,
    pub screen_type: ScreenType,
    pub pane_focus: PaneFocus,
    pub installed_avds: Seq<AvdInfo>,
    pub running_devices: Seq<DeviceTarget>,
    pub avd_selected_index: usize,
    pub device_selected_index: usize,
    pub status_logs: Seq<Seq<char>>,
    pub is_busy: bool,
    pub current_action: Option<Seq<char>>,
    pub gradle: GradleView,
    pub log: LogView,
}

impl AppView {
    /// The invariant that every operation keeps.
    pub open spec fn wf(&self) -> bool {
        &&& self.status_logs.len() <= MAX_STATUS_LOGS
        &&& self.gradle.wf()
        &&& sessions_wf(self.log.sessions)
        &&& self.installed_avds.len() <= usize::MAX
        &&& self.running_devices.len() <= usize::MAX
        &&& self.installed_avds.len() > 0 ==> self.avd_selected_index < self.installed_avds.len()
        &&& self.running_devices.len() > 0 ==> self.device_selected_index
            < self.running_devices.len()
    }

    /// Index of the session of `serial`, or -1.
    pub open spec fn session_of(&self, serial: Seq<char>) -> int {
        index_in(serials_of(self.log.sessions), serial)
    }

    /// Index of the session of the active log device, or -1.
    pub open spec fn active_index(&self) -> int {
        match self.log.active_device_serial {
            Some(a) => self.session_of(a),
            None => -1,
        }
    }

    pub open spec fn with_gradle(self, g: GradleView) -> AppView {
        AppView { gradle: g, ..self }
    }

    pub open spec fn with_sessions(self, ss: Seq<SessionView>) -> AppView {
        AppView { log: LogView { sessions: ss, ..self.log }, ..self }
    }

    pub open spec fn with_session(self, i: int, s: SessionView) -> AppView {
        self.with_sessions(self.log.sessions.update(i, s))
    }

    pub open spec fn with_active_serial(self, a: Option<Seq<char>>) -> AppView {
        AppView { log: LogView { active_device_serial: a, ..self.log }, ..self }
    }

    /// The state after the session of `serial` is made sure to exist: a new
    /// one is added when there is none, and a non-empty `name` becomes the
    /// session's display name.
    pub open spec fn ensure_session(self, serial: Seq<char>, name: Seq<char>) -> AppView {
        let i = self.session_of(serial);
        if i >= 0 {
            if name.len() > 0 {
                self.with_session(i, SessionView { display_name: name, ..self.log.sessions[i] })
            } else {
                self
            }
        } else {
            self.with_sessions(
                self.log.sessions.push(
                    fresh_session(serial, name, log_file_of(self.log.logs_dir, serial)),
                ),
            )
        }
    }

    /// Sessions made sure to exist for each device, in order.
    pub open spec fn ensure_sessions(self, devices: Seq<DeviceTarget>) -> AppView
        decreases devices.len(),
    {
        if devices.len() == 0 {
            self
        } else {
            let d = devices.last();
            self.ensure_sessions(devices.drop_last()).ensure_session(
                d.serial@,
                display_name_of(d.serial@, opt_view(d.model)),
            )
        }
    }

    /// The state after `f` changes the active session, if there is one.
    pub open spec fn with_active_session(self, s: SessionView) -> AppView {
        let i = self.active_index();
        if i >= 0 {
            self.with_session(i, s)
        } else {
            self
        }
    }

    /// The active session (arbitrary when there is none).
    pub open spec fn active_session(self) -> SessionView {
        self.log.sessions[self.active_index()]
    }

    /// The state after a device listing arrives: virtual devices are marked
    /// running, every device gets a log session, the active log device falls
    /// back to the first device when it is gone, and the selections stay
    /// inside the new lists.
    pub open spec fn after_refresh(self, avds: Seq<AvdInfo>, devices: Seq<DeviceTarget>) -> AppView {
        let v1 = self.ensure_sessions(devices);
        let active = self.log.active_device_serial;
        let new_active = if (active is None || !device_serials(devices).contains(active->0))
            && devices.len() > 0 {
            Some(devices[0].serial@)
        } else {
            active
        };
        AppView {
            installed_avds: marked_avds(avds, devices),
            running_devices: devices,
            avd_selected_index: clamped(self.avd_selected_index, avds.len() as int),
            device_selected_index: clamped(self.device_selected_index, devices.len() as int),
            log: LogView { active_device_serial: new_active, ..v1.log },
            ..v1
        }
    }

    /// The state after a line of Gradle output arrives; with auto-scroll on
    /// the view follows it.
    pub open spec fn gradle_line_appended(self, line: Seq<char>) -> AppView {
        let g = self.gradle;
        self.with_gradle(
            GradleView {
                output_lines: g.output_lines.push(line),
                scroll_offset: if g.auto_scroll {
                    (g.output_lines.len() + 1) as usize
                } else {
                    g.scroll_offset
                },
                ..g
            },
        )
    }

    /// The state after the Gradle output is scrolled up by `count` lines.
    pub open spec fn gradle_scrolled_up(self, count: int) -> AppView {
        let g = self.gradle;
        self.with_gradle(
            GradleView {
                auto_scroll: false,
                scroll_offset: sat_sub(g.scroll_offset as int, count) as usize,
                ..g
            },
        )
    }

    /// The state after the Gradle output is scrolled down by `count` lines;
    /// reaching the end turns auto-scroll on.
    pub open spec fn gradle_scrolled_down(self, count: int) -> AppView {
        let g = self.gradle;
        let off = min(g.scroll_offset + count, g.output_lines.len() as int);
        self.with_gradle(
            GradleView {
                scroll_offset: off as usize,
                auto_scroll: g.auto_scroll || off >= g.output_lines.len(),
                ..g
            },
        )
    }

    /// The state with Gradle auto-scroll switched; switching it on moves the
    /// view to the end.
    pub open spec fn gradle_auto_scroll_toggled(self) -> AppView {
        let g = self.gradle;
        self.with_gradle(
            GradleView {
                auto_scroll: !g.auto_scroll,
                scroll_offset: if !g.auto_scroll {
                    g.output_lines.len() as usize
                } else {
                    g.scroll_offset
                },
                ..g
            },
        )
    }

    /// The state with the Gradle output and the last APK path cleared.
    pub open spec fn gradle_cleared(self) -> AppView {
        self.with_gradle(
            GradleView {
                output_lines: seq![],
                scroll_offset: 0,
                auto_scroll: true,
                apk_path: None,
                ..self.gradle
            },
        )
    }

    /// The state with `line` added to the activity log.
    pub open spec fn with_status_line(self, line: Seq<char>) -> AppView {
        AppView { status_logs: status_after_add(self.status_logs, line), ..self }
    }

    /// The state with the other emulator pane focused.
    pub open spec fn focus_toggled(self) -> AppView {
        AppView {
            pane_focus: match self.pane_focus {
                PaneFocus::InstalledAvds => PaneFocus::RunningTargets,
                PaneFocus::RunningTargets => PaneFocus::InstalledAvds,
            },
            ..self
        }
    }

    /// The state with the next item of the focused list selected, wrapping around.
    pub open spec fn selection_next(self) -> AppView {
        match self.pane_focus {
            PaneFocus::InstalledAvds => AppView {
                avd_selected_index: if self.installed_avds.len() > 0 {
                    ((self.avd_selected_index + 1) % (self.installed_avds.len() as int)) as usize
                } else {
                    self.avd_selected_index
                },
                ..self
            },
            PaneFocus::RunningTargets => AppView {
                device_selected_index: if self.running_devices.len() > 0 {
                    ((self.device_selected_index + 1) % (self.running_devices.len() as int)) as usize
                } else {
                    self.device_selected_index
                },
                ..self
            },
        }
    }

    /// The state with the previous item of the focused list selected, wrapping around.
    pub open spec fn selection_prev(self) -> AppView {
        match self.pane_focus {
            PaneFocus::InstalledAvds => AppView {
                avd_selected_index: if self.installed_avds.len() == 0 {
                    self.avd_selected_index
                } else if self.avd_selected_index == 0 {
                    (self.installed_avds.len() - 1) as usize
                } else {
                    (self.avd_selected_index - 1) as usize
                },
                ..self
            },
            PaneFocus::RunningTargets => AppView {
                device_selected_index: if self.running_devices.len() == 0 {
                    self.device_selected_index
                } else if self.device_selected_index == 0 {
                    (self.running_devices.len() - 1) as usize
                } else {
                    (self.device_selected_index - 1) as usize
                },
                ..self
            },
        }
    }

    /// Position of the active log device among the running devices (0 when
    /// it is not among them).
    pub open spec fn active_device_position(&self) -> int {
        match self.log.active_device_serial {
            Some(a) => {
                let k = index_in(device_serials(self.running_devices), a);
                if k >= 0 {
                    k
                } else {
                    0
                }
            },
            None => 0,
        }
    }

    /// The state after the log view switches to the device at `idx`.
    pub open spec fn switch_log_device(self, idx: int) -> AppView {
        let d = self.running_devices[idx];
        self.ensure_session(d.serial@, display_name_of(d.serial@, opt_view(d.model))).with_active_serial(
            Some(d.serial@),
        )
    }
}

/// The session after a log line arrives.
pub open spec fn session_after_line(s: SessionView, line: Seq<char>) -> SessionView {
    let s2 = SessionView { lines: lines_after_append(s.lines, line), ..s };
    if s.auto_scroll {
        SessionView { scroll_offset: s2.shown().len() as usize, ..s2 }
    } else {
        s2
    }
}

/// The session after scrolling down by `count` lines.
pub open spec fn session_scrolled_down(s: SessionView, count: int) -> SessionView {
    let total = s.shown().len() as int;
    let off = min(s.scroll_offset + count, total);
    SessionView { scroll_offset: off as usize, auto_scroll: s.auto_scroll || off >= total, ..s }
}

/// The session with its query replaced and the view moved to the end of the
/// matching lines.
pub open spec fn session_with_query(s: SessionView, query: Seq<char>) -> SessionView {
    let s2 = SessionView { search_query: query, ..s };
    SessionView { scroll_offset: s2.shown().len() as usize, ..s2 }
}

/// The session after scrolling up by `count` lines.
pub open spec fn session_scrolled_up(s: SessionView, count: int) -> SessionView {
    SessionView { auto_scroll: false, scroll_offset: sat_sub(s.scroll_offset as int, count) as usize, ..s }
}

/// The session with the view at the first line.
pub open spec fn session_at_top(s: SessionView) -> SessionView {
    SessionView { auto_scroll: false, scroll_offset: 0, ..s }
}

/// The session with the view at the last matching line and auto-scroll on.
pub open spec fn session_at_bottom(s: SessionView) -> SessionView {
    SessionView { auto_scroll: true, scroll_offset: s.shown().len() as usize, ..s }
}

/// The session with auto-scroll switched; switching it on moves the view
/// to the last matching line.
pub open spec fn session_auto_scroll_toggled(s: SessionView) -> SessionView {
    if s.auto_scroll {
        SessionView { auto_scroll: false, ..s }
    } else {
        session_at_bottom(s)
    }
}

/// The session with no lines, the view at the top and auto-scroll on.
pub open spec fn session_cleared(s: SessionView) -> SessionView {
    SessionView { lines: seq![], scroll_offset: 0, auto_scroll: true, ..s }
}

/// The session after its saved history was looked for; `saved` is the
/// content of its log file, if it could be read.
pub open spec fn session_restored(s: SessionView, saved: Option<Seq<char>>) -> SessionView {
    match saved {
        Some(c) => {
            let ls = lines_after_restore(c, s.lines);
            SessionView { lines: ls, scroll_offset: ls.len() as usize, awaiting_history: false, ..s }
        },
        None => SessionView { awaiting_history: false, ..s },
    }
}

/// The serials of the sessions whose saved history has not been loaded.
pub open spec fn awaiting_serials(sessions: Seq<SessionView>) -> Seq<Seq<char>>
    decreases sessions.len(),
{
    if sessions.len() == 0 {
        seq![]
    } else {
        let rest = awaiting_serials(sessions.drop_last());
        if sessions.last().awaiting_history {
            rest.push(sessions.last().serial)
        } else {
            rest
        }
    }
}

/// The virtual devices of a listing, each marked running when a listed
/// device matches its name.
pub open spec fn marked_avds(avds: Seq<AvdInfo>, devices: Seq<DeviceTarget>) -> Seq<AvdInfo> {
    Seq::new(
        avds.len(),
        |i: int| AvdInfo { name: avds[i].name, is_running: avd_running(avds[i].name@, devices) },
    )
}

/// A selection index kept inside a list of `len` items.
pub open spec fn clamped(idx: usize, len: int) -> usize {
    if idx >= len && len > 0 {
        (len - 1) as usize
    } else {
        idx
    }
}

#[derive(Debug)]
pub struct AppState {
    pub project_dir: String,
    pub screen_type: ScreenType,
    pub pane_focus: PaneFocus,
    pub installed_avds: Vec<AvdInfo>,
    pub running_devices: Vec<DeviceTarget>,
    pub avd_selected_index: usize,
    pub device_selected_index: usize,
    pub status_logs: VecDeque<String>,
    pub is_busy: bool,
    pub current_action: Option<String>,
    pub gradle_state: GradleState,
    pub log_state: LogState,
}

impl View for AppState {
    type V = AppView;

    open spec fn view(&self) -> AppView {
        AppView {
            project_dir: self.project_dir@,
            screen_type: self.screen_type,
            pane_focus: self.pane_focus,
            installed_avds: self.installed_avds@,
            running_devices: self.running_devices@,
            avd_selected_index: self.avd_selected_index,
            device_selected_index: self.device_selected_index,
            status_logs: self.status_logs@.map_values(|s: String| s@),
            is_busy: self.is_busy,
            current_action: opt_view(self.current_action),
            gradle: self.gradle_state@,
            log: self.log_state@,
        }
    }
}

impl Default for AppState {
    /// A state for the current directory, with logs under `./.ast/logs`
    /// (where the program falls back to when no home directory is known).
    fn default() -> (s: Self)
        ensures
            s@ == AppState::initial_view("."@, "./.ast/logs"@),
    {
        AppState::new(".".to_owned(), "./.ast/logs".to_owned())
    }
}

impl AppState {
    /// The state at start-up.
    pub open spec fn initial_view(project_dir: Seq<char>, logs_dir: Seq<char>) -> AppView {
        AppView {
            project_dir,
            screen_type: ScreenType::Emu,
            pane_focus: PaneFocus::InstalledAvds,
            installed_avds: seq![],
            running_devices: seq![],
            avd_selected_index: 0,
            device_selected_index: 0,
            status_logs: seq![
                "Welcome to ast (Android Studio TUI)."@,
                "Project root: "@ + project_dir,
                "Discovering installed AVDs and connected devices..."@,
            ],
            is_busy: false,
            current_action: None,
            gradle: GradleView {
                output_lines: seq![],
                scroll_offset: 0,
                auto_scroll: true,
                status: TaskStatus::Idle,
                active_task_name: None,
                apk_path: None,
                available_tasks: default_tasks(),
                selected_task_index: 0,
            },
            log: LogView {
                active_device_serial: None,
                sessions: seq![],
                search_mode: SearchMode::Normal,
                logs_dir,
            },
        }
    }

    /// A fresh state for the project in `project_dir`, keeping device logs in
    /// `logs_dir`.
    pub fn new(project_dir: String, logs_dir: String) -> (s: Self)
        ensures
            s@ == AppState::initial_view(project_dir@, logs_dir@),
            s@.wf(),
    {
        let mut logs: VecDeque<String> = VecDeque::with_capacity(200);
        logs.push_back("Welcome to ast (Android Studio TUI).".to_owned());
        let root = "Project root: ".to_owned().concat(project_dir.as_str());
        logs.push_back(root);
        logs.push_back("Discovering installed AVDs and connected devices...".to_owned());
        let s = AppState {
            project_dir,
            screen_type: ScreenType::Emu,
            pane_focus: PaneFocus::InstalledAvds,
            installed_avds: Vec::new(),
            running_devices: Vec::new(),
            avd_selected_index: 0,
            device_selected_index: 0,
            status_logs: logs,
            is_busy: false,
            current_action: None,
            gradle_state: GradleState::default(),
            log_state: LogState {
                active_device_serial: None,
                sessions: Vec::new(),
                search_mode: SearchMode::Normal,
                logs_dir,
            },
        };
        assert(s@.status_logs =~= AppState::initial_view(s.project_dir@, s.log_state.logs_dir@).status_logs);
        assert(s@.gradle.output_lines =~= Seq::<Seq<char>>::empty());
        assert(s@.log.sessions =~= Seq::<SessionView>::empty());
        assert(serials_of(s@.log.sessions) =~= Seq::<Seq<char>>::empty());
        s
    }

    /// Adds a line to the activity log, dropping the oldest line when the log
    /// already holds `MAX_STATUS_LOGS` lines.
    pub fn add_log(&mut self, line: String)
        requires
            old(self)@.wf(),
        ensures
            final(self)@ == old(self)@.with_status_line(line@),
            final(self)@.wf(),
    {
        let ghost before = self@.status_logs;
        if self.status_logs.len() >= MAX_STATUS_LOGS {
            let _ = self.status_logs.pop_front();
        }
        self.status_logs.push_back(line);
        assert(self@.status_logs =~= status_after_add(before, line@));
    }

    // --- Gradle output ---

    pub fn append_gradle_line(&mut self, line: String)
        requires
            old(self)@.wf(),
        ensures
            final(self)@ == old(self)@.gradle_line_appended(line@),
            final(self)@.wf(),
    {
        self.gradle_state.output_lines.push(line);
        if self.gradle_state.auto_scroll {
            self.gradle_state.scroll_offset = self.gradle_state.output_lines.len();
        }
        assert(self@.gradle.output_lines =~= old(self)@.gradle.output_lines.push(line@));
    }

    pub fn scroll_gradle_up(&mut self, count: usize)
        requires
            old(self)@.wf(),
        ensures
            final(self)@ == old(self)@.gradle_scrolled_up(count as int),
            final(self)@.wf(),
    {
        self.gradle_state.auto_scroll = false;
        self.gradle_state.scroll_offset = self.gradle_state.scroll_offset.saturating_sub(count);
    }

    pub fn scroll_gradle_down(&mut self, count: usize)
        requires
            old(self)@.wf(),
        ensures
            final(self)@ == old(self)@.gradle_scrolled_down(count as int),
            final(self)@.wf(),
    {
        let total = self.gradle_state.output_lines.len();
        let offset = self.gradle_state.scroll_offset;
        self.gradle_state.scroll_offset = if count >= total - offset {
            total
        } else {
            offset + count
        };
        if self.gradle_state.scroll_offset >= total {
            self.gradle_state.auto_scroll = true;
        }
    }

    pub fn toggle_gradle_auto_scroll(&mut self)
        requires
            old(self)@.wf(),
        ensures
            final(self)@ == old(self)@.gradle_auto_scroll_toggled(),
            final(self)@.wf(),
    {
        self.gradle_state.auto_scroll = !self.gradle_state.auto_scroll;
        if self.gradle_state.auto_scroll {
            self.gradle_state.scroll_offset = self.gradle_state.output_lines.len();
        }
    }

    pub fn clear_gradle_output(&mut self)
        requires
            old(self)@.wf(),
        ensures
            final(self)@ == old(self)@.gradle_cleared(),
            final(self)@.wf(),
    {
        self.gradle_state.output_lines.clear();
        self.gradle_state.scroll_offset = 0;
        self.gradle_state.auto_scroll = true;
        self.gradle_state.apk_path = None;
        assert(self@.gradle.output_lines =~= Seq::<Seq<char>>::empty());
    }

    // --- Emulator tab navigation ---

    pub fn select_next(&mut self)
        requires
            old(self)@.wf(),
        ensures
            final(self)@ == old(self)@.selection_next(),
            final(self)@.wf(),
    {
        match self.pane_focus {
            PaneFocus::InstalledAvds => {
                if self.installed_avds.len() > 0 {
                    self.avd_selected_index = (self.avd_selected_index + 1)
                        % self.installed_avds.len();
                }
            },
            PaneFocus::RunningTargets => {
                if self.running_devices.len() > 0 {
                    self.device_selected_index = (self.device_selected_index + 1)
                        % self.running_devices.len();
                }
            },
        }
    }

    pub fn select_prev(&mut self)
        requires
            old(self)@.wf(),
        ensures
            final(self)@ == old(self)@.selection_prev(),
            final(self)@.wf(),
    {
        match self.pane_focus {
            PaneFocus::InstalledAvds => {
                if self.installed_avds.len() > 0 {
                    if self.avd_selected_index == 0 {
                        self.avd_selected_index = self.installed_avds.len() - 1;
                    } else {
                        self.avd_selected_index = self.avd_selected_index - 1;
                    }
                }
            },
            PaneFocus::RunningTargets => {
                if self.running_devices.len() > 0 {
                    if self.device_selected_index == 0 {
                        self.device_selected_index = self.running_devices.len() - 1;
                    } else {
                        self.device_selected_index = self.device_selected_index - 1;
                    }
                }
            },
        }
    }

    pub fn toggle_focus(&mut self)
        requires
            old(self)@.wf(),
        ensures
            final(self)@ == old(self)@.focus_toggled(),
            final(self)@.wf(),
    {
        self.pane_focus = match self.pane_focus {
            PaneFocus::InstalledAvds => PaneFocus::RunningTargets,
            PaneFocus::RunningTargets => PaneFocus::InstalledAvds,
        };
    }

    pub fn get_selected_avd(&self) -> (r: Option<&AvdInfo>)
        ensures
            r == if self.avd_selected_index < self.installed_avds@.len() {
                Some(&self.installed_avds@[self.avd_selected_index as int])
            } else {
                None
            },
    {
        if self.avd_selected_index < self.installed_avds.len() {
            Some(&self.installed_avds[self.avd_selected_index])
        } else {
            None
        }
    }

    pub fn get_selected_device(&self) -> (r: Option<&DeviceTarget>)
        ensures
            r == if self.device_selected_index < self.running_devices@.len() {
                Some(&self.running_devices@[self.device_selected_index as int])
            } else {
                None
            },
    {
        if self.device_selected_index < self.running_devices.len() {
            Some(&self.running_devices[self.device_selected_index])
        } else {
            None
        }
    }
    // --- Log sessions ---

    /// Whether the logcat stream of `serial` runs, as its session records
    /// (no session: not streaming).
    pub fn is_device_streaming(&self, serial: &str) -> (b: bool)
        ensures
            b == (self@.session_of(serial@) >= 0
                && self@.log.sessions[self@.session_of(serial@)].is_streaming),
    {
        match self.find_session(serial) {
            Some(i) => self.log_state.sessions[i].is_streaming,
            None => false,
        }
    }

    /// Path of the log file of a device.
    pub fn log_file_path_for_serial(&self, serial: &str) -> (p: String)
        ensures
            p@ == log_file_of(self@.log.logs_dir, serial@),
    {
        log_file_path(self.log_state.logs_dir.as_str(), serial)
    }

    /// Position of the session of `serial`, if there is one.
    pub fn find_session(&self, serial: &str) -> (r: Option<usize>)
        ensures
            match r {
                Some(i) => i == self@.session_of(serial@) && i < self@.log.sessions.len(),
                None => self@.session_of(serial@) == -1,
            },
    {
        let key = serial.to_owned();
        let ghost ss = serials_of(self@.log.sessions);
        let n = self.log_state.sessions.len();
        let mut i: usize = 0;
        while i < n
            invariant
                i <= n,
                n == self.log_state.sessions@.len(),
                key@ == serial@,
                ss == serials_of(self@.log.sessions),
                forall|j: int| 0 <= j < i ==> #[trigger] ss[j] != serial@,
            decreases n - i,
        {
            if self.log_state.sessions[i].serial == key {
                proof {
                    lemma_first_index(ss, serial@, i as int);
                }
                return Some(i);
            }
            i = i + 1;
        }
        proof {
            lemma_index_in(ss, serial@);
            if index_in(ss, serial@) >= 0 {
                assert(ss[index_in(ss, serial@)] == serial@);
            }
        }
        None
    }

    /// Makes sure the session of `serial` exists and returns its position.
    fn ensure_session(&mut self, serial: &str, display_name: &str) -> (i: usize)
        requires
            old(self)@.wf(),
        ensures
            final(self)@ == old(self)@.ensure_session(serial@, display_name@),
            final(self)@.wf(),
            i == final(self)@.session_of(serial@),
            i < final(self)@.log.sessions.len(),
    {
        match self.find_session(serial) {
            Some(i) => {
                proof {
                    lemma_index_in(serials_of(self@.log.sessions), serial@);
                }
                if !display_name.is_empty() {
                    let ghost before = self@;
                    self.log_state.sessions[i].display_name = display_name.to_owned();
                    proof {
                        assert(self@.log.sessions =~= before.log.sessions.update(
                            i as int,
                            SessionView { display_name: display_name@, ..before.log.sessions[i as int] },
                        ));
                        assert(serials_of(self@.log.sessions) =~= serials_of(before.log.sessions));
                    }
                }
                i
            },
            None => {
                let ghost before = self@;
                proof {
                    lemma_index_in(serials_of(before.log.sessions), serial@);
                }
                let path = log_file_path(self.log_state.logs_dir.as_str(), serial);
                let session = DeviceLogSession::new(
                    serial.to_owned(),
                    display_name.to_owned(),
                    path,
                );
                let n = self.log_state.sessions.len();
                self.log_state.sessions.push(session);
                proof {
                    let ss0 = serials_of(before.log.sessions);
                    assert(self@.log.sessions =~= before.log.sessions.push(
                        fresh_session(serial@, display_name@, log_file_of(before.log.logs_dir, serial@)),
                    ));
                    let ss = serials_of(self@.log.sessions);
                    assert(ss =~= ss0.push(serial@));
                    assert forall|a: int, b: int| 0 <= a < b < ss.len() implies ss[a] != ss[b] by {
                        if b == ss0.len() {
                            assert(ss0[a] != serial@);
                        }
                    }
                    lemma_first_index(ss, serial@, n as int);
                }
                n
            },
        }
    }

    /// The session of `serial`, created when missing. A non-empty
    /// `display_name` replaces the session's display name.
    pub fn get_or_create_log_session(&mut self, serial: &str, display_name: &str) -> (r:
        &mut DeviceLogSession)
        requires
            old(self)@.wf(),
        ensures
            ({
                let e = old(self)@.ensure_session(serial@, display_name@);
                let i = e.session_of(serial@);
                &&& e.wf()
                &&& 0 <= i < e.log.sessions.len()
                &&& (*r)@ == e.log.sessions[i]
                &&& final(self)@ == e.with_session(i, (*final(r))@)
            }),
    {
        let i = self.ensure_session(serial, display_name);
        let r = &mut self.log_state.sessions[i];
        r
    }

    /// The session of the active log device.
    pub fn active_log_session(&self) -> (r: Option<&DeviceLogSession>)
        ensures
            match r {
                Some(s) => self@.active_index() >= 0 && s@ == self@.log.sessions[self@.active_index()],
                None => self@.active_index() == -1,
            },
    {
        match self.active_session_index() {
            Some(i) => Some(&self.log_state.sessions[i]),
            None => None,
        }
    }

    /// The session of the active log device, for changing it.
    pub fn active_log_session_mut(&mut self) -> (r: Option<&mut DeviceLogSession>)
        ensures
            match r {
                Some(s) => {
                    &&& old(self)@.active_index() >= 0
                    &&& (*s)@ == old(self)@.log.sessions[old(self)@.active_index()]
                    &&& final(self)@ == old(self)@.with_session(
                        old(self)@.active_index(),
                        (*final(s))@,
                    )
                },
                None => old(self)@.active_index() == -1 && final(self)@ == old(self)@,
            },
    {
        match self.active_session_index() {
            Some(i) => Some(&mut self.log_state.sessions[i]),
            None => None,
        }
    }

    /// Position of the active session.
    fn active_session_index(&self) -> (r: Option<usize>)
        ensures
            match r {
                Some(i) => i == self@.active_index() && i < self@.log.sessions.len(),
                None => self@.active_index() == -1,
            },
    {
        match &self.log_state.active_device_serial {
            Some(a) => {
                let r = self.find_session(a.as_str());
                proof {
                    lemma_index_in(serials_of(self@.log.sessions), a@);
                }
                r
            },
            None => None,
        }
    }

    pub fn select_log_device(&mut self, serial: &str)
        requires
            old(self)@.wf(),
        ensures
            final(self)@ == old(self)@.with_active_serial(Some(serial@)),
            final(self)@.wf(),
    {
        self.log_state.active_device_serial = Some(serial.to_owned());
    }
    /// Adds a line that a device's logcat stream produced. The session is
    /// created when missing, the oldest `SESSION_DRAIN` lines leave when it
    /// grows past `MAX_SESSION_LINES`, and with auto-scroll on the view
    /// follows the last matching line.
    pub fn append_logcat_line(&mut self, serial: &str, line: String)
        requires
            old(self)@.wf(),
        ensures
            ({
                let e = old(self)@.ensure_session(serial@, Seq::<char>::empty());
                let i = e.session_of(serial@);
                final(self)@ == e.with_session(i, session_after_line(e.log.sessions[i], line@))
            }),
            final(self)@.wf(),
    {
        proof {
            reveal_strlit("");
            assert(""@ =~= Seq::<char>::empty());
        }
        let i = self.ensure_session(serial, "");
        let ghost e = self@;
        let ghost line_v = line@;
        let ghost s0 = e.log.sessions[i as int];
        let session = &mut self.log_state.sessions[i];
        session.lines.push(line);
        if session.lines.len() > MAX_SESSION_LINES {
            let tail = session.lines.split_off(SESSION_DRAIN);
            session.lines = tail;
        }
        proof {
            let grown = s0.lines.push(line_v);
            assert(views(session.lines@) =~= lines_after_append(s0.lines, line_v));
        }
        if session.auto_scroll {
            let total = session.filtered_count();
            session.scroll_offset = total;
        }
        proof {
            let s1 = session_after_line(s0, line_v);
            assert(self@.log.sessions =~= e.log.sessions.update(i as int, s1));
            assert(serials_of(self@.log.sessions) =~= serials_of(e.log.sessions));
            assert forall|j: int| 0 <= j < self@.log.sessions.len() implies (
            #[trigger] self@.log.sessions[j]).lines.len() <= MAX_SESSION_LINES by {
                if j != i {
                    assert(self@.log.sessions[j] == e.log.sessions[j]);
                }
            }
        }
    }

    /// Position of the active log device among the running devices (0 when
    /// it is not among them or none is active).
    pub fn active_log_device_index(&self) -> (r: usize)
        ensures
            r == self@.active_device_position(),
    {
        match &self.log_state.active_device_serial {
            Some(active) => {
                let ghost ds = device_serials(self@.running_devices);
                let n = self.running_devices.len();
                let mut i: usize = 0;
                while i < n
                    invariant
                        i <= n,
                        n == self.running_devices@.len(),
                        ds == device_serials(self@.running_devices),
                        self@.log.active_device_serial == Some(active@),
                        forall|j: int| 0 <= j < i ==> #[trigger] ds[j] != active@,
                    decreases n - i,
                {
                    if self.running_devices[i].serial == *active {
                        proof {
                            assert(ds[i as int] == self.running_devices@[i as int].serial@);
                            lemma_first_index(ds, active@, i as int);
                            assert(self@.log.active_device_serial == Some(active@));
                            assert(index_in(device_serials(self@.running_devices), active@) == i);
                        }
                        return i;
                    }
                    i = i + 1;
                }
                proof {
                    lemma_index_in(ds, active@);
                    if index_in(ds, active@) >= 0 {
                        assert(ds[index_in(ds, active@)] == active@);
                    }
                }
                0
            },
            None => 0,
        }
    }

    /// Shows the logs of the running device at `idx`, creating its session
    /// when missing.
    fn switch_log_device(&mut self, idx: usize)
        requires
            old(self)@.wf(),
            idx < old(self)@.running_devices.len(),
        ensures
            final(self)@ == old(self)@.switch_log_device(idx as int),
            final(self)@.wf(),
    {
        let serial = self.running_devices[idx].serial.clone();
        let name = self.running_devices[idx].display_name();
        let _ = self.ensure_session(serial.as_str(), name.as_str());
        self.select_log_device(serial.as_str());
    }

    /// Switches the log view to the next running device, wrapping around.
    pub fn select_next_log_device(&mut self)
        requires
            old(self)@.wf(),
        ensures
            final(self)@ == if old(self)@.running_devices.len() == 0 {
                old(self)@
            } else {
                old(self)@.switch_log_device(
                    (old(self)@.active_device_position() + 1) % (
                    old(self)@.running_devices.len() as int),
                )
            },
            final(self)@.wf(),
    {
        if self.running_devices.len() == 0 {
            return;
        }
        let current = self.active_log_device_index();
        proof {
            lemma_index_in(device_serials(self@.running_devices), self@.log.active_device_serial->0);
        }
        let next = (current + 1) % self.running_devices.len();
        self.switch_log_device(next);
    }

    /// Switches the log view to the previous running device, wrapping around.
    pub fn select_prev_log_device(&mut self)
        requires
            old(self)@.wf(),
        ensures
            final(self)@ == if old(self)@.running_devices.len() == 0 {
                old(self)@
            } else if old(self)@.active_device_position() == 0 {
                old(self)@.switch_log_device(old(self)@.running_devices.len() - 1)
            } else {
                old(self)@.switch_log_device(old(self)@.active_device_position() - 1)
            },
            final(self)@.wf(),
    {
        if self.running_devices.len() == 0 {
            return;
        }
        let current = self.active_log_device_index();
        proof {
            lemma_index_in(device_serials(self@.running_devices), self@.log.active_device_serial->0);
        }
        let prev = if current == 0 {
            self.running_devices.len() - 1
        } else {
            current - 1
        };
        self.switch_log_device(prev);
    }

    /// Switches the log view to the running device at `idx`, if there is one.
    pub fn select_log_device_by_index(&mut self, idx: usize)
        requires
            old(self)@.wf(),
        ensures
            final(self)@ == if idx < old(self)@.running_devices.len() {
                old(self)@.switch_log_device(idx as int)
            } else {
                old(self)@
            },
            final(self)@.wf(),
    {
        if idx < self.running_devices.len() {
            self.switch_log_device(idx);
        }
    }

    pub fn scroll_logs_up(&mut self, count: usize)
        requires
            old(self)@.wf(),
        ensures
            final(self)@ == old(self)@.with_active_session(
                session_scrolled_up(old(self)@.active_session(), count as int),
            ),
            final(self)@.wf(),
    {
        match self.active_session_index() {
            Some(i) => {
                let ghost e = self@;
                let session = &mut self.log_state.sessions[i];
                session.auto_scroll = false;
                session.scroll_offset = session.scroll_offset.saturating_sub(count);
                proof {
                    self.lemma_session_replaced(e, i as int);
                }
            },
            None => {},
        }
    }

    pub fn scroll_logs_down(&mut self, count: usize)
        requires
            old(self)@.wf(),
        ensures
            final(self)@ == old(self)@.with_active_session(
                session_scrolled_down(old(self)@.active_session(), count as int),
            ),
            final(self)@.wf(),
    {
        match self.active_session_index() {
            Some(i) => {
                let ghost e = self@;
                let session = &mut self.log_state.sessions[i];
                let total = session.filtered_count();
                let offset = session.scroll_offset;
                session.scroll_offset = if offset >= total || count >= total - offset {
                    total
                } else {
                    offset + count
                };
                if session.scroll_offset >= total {
                    session.auto_scroll = true;
                }
                proof {
                    self.lemma_session_replaced(e, i as int);
                }
            },
            None => {},
        }
    }

    pub fn scroll_logs_top(&mut self)
        requires
            old(self)@.wf(),
        ensures
            final(self)@ == old(self)@.with_active_session(
                session_at_top(old(self)@.active_session()),
            ),
            final(self)@.wf(),
    {
        match self.active_session_index() {
            Some(i) => {
                let ghost e = self@;
                let session = &mut self.log_state.sessions[i];
                session.auto_scroll = false;
                session.scroll_offset = 0;
                proof {
                    self.lemma_session_replaced(e, i as int);
                }
            },
            None => {},
        }
    }

    pub fn scroll_logs_bottom(&mut self)
        requires
            old(self)@.wf(),
        ensures
            final(self)@ == old(self)@.with_active_session(
                session_at_bottom(old(self)@.active_session()),
            ),
            final(self)@.wf(),
    {
        match self.active_session_index() {
            Some(i) => {
                let ghost e = self@;
                let session = &mut self.log_state.sessions[i];
                session.auto_scroll = true;
                session.scroll_offset = session.filtered_count();
                proof {
                    self.lemma_session_replaced(e, i as int);
                }
            },
            None => {},
        }
    }

    pub fn toggle_logs_auto_scroll(&mut self)
        requires
            old(self)@.wf(),
        ensures
            final(self)@ == old(self)@.with_active_session(
                session_auto_scroll_toggled(old(self)@.active_session()),
            ),
            final(self)@.wf(),
    {
        match self.active_session_index() {
            Some(i) => {
                let ghost e = self@;
                let session = &mut self.log_state.sessions[i];
                session.auto_scroll = !session.auto_scroll;
                if session.auto_scroll {
                    session.scroll_offset = session.filtered_count();
                }
                proof {
                    self.lemma_session_replaced(e, i as int);
                }
            },
            None => {},
        }
    }

    pub fn clear_active_logs(&mut self)
        requires
            old(self)@.wf(),
        ensures
            final(self)@ == old(self)@.with_active_session(
                session_cleared(old(self)@.active_session()),
            ),
            final(self)@.wf(),
    {
        match self.active_session_index() {
            Some(i) => {
                let ghost e = self@;
                let session = &mut self.log_state.sessions[i];
                session.lines.clear();
                session.scroll_offset = 0;
                session.auto_scroll = true;
                proof {
                    assert(views(session.lines@) =~= Seq::<Seq<char>>::empty());
                    self.lemma_session_replaced(e, i as int);
                }
            },
            None => {},
        }
    }

    /// Replaces the search query of the active session and moves its view to
    /// the last matching line.
    pub fn update_search_query(&mut self, query: String)
        requires
            old(self)@.wf(),
        ensures
            final(self)@ == old(self)@.with_active_session(
                session_with_query(old(self)@.active_session(), query@),
            ),
            final(self)@.wf(),
    {
        match self.active_session_index() {
            Some(i) => {
                let ghost e = self@;
                let session = &mut self.log_state.sessions[i];
                session.search_query = query;
                session.scroll_offset = session.filtered_count();
                proof {
                    self.lemma_session_replaced(e, i as int);
                }
            },
            None => {},
        }
    }

    /// After the session at `i` changed in place (same serial, at most
    /// `MAX_SESSION_LINES` lines), the state is `before` with that session
    /// replaced and is still well formed.
    pub proof fn lemma_session_replaced(&self, before: AppView, i: int)
        requires
            before.wf(),
            0 <= i < before.log.sessions.len(),
            self@.log.sessions.len() == before.log.sessions.len(),
            forall|j: int| 0 <= j < before.log.sessions.len() && j != i ==> #[trigger] self@.log.sessions[j] == before.log.sessions[j],
            self@.log.sessions[i].serial == before.log.sessions[i].serial,
            self@.log.sessions[i].lines.len() <= MAX_SESSION_LINES,
            self@ == before.with_sessions(self@.log.sessions),
        ensures
            self@ == before.with_session(i, self@.log.sessions[i]),
            self@.wf(),
    {
        assert(self@.log.sessions =~= before.log.sessions.update(i, self@.log.sessions[i]));
        assert(serials_of(self@.log.sessions) =~= serials_of(before.log.sessions));
    }
    /// Takes in a new listing of virtual devices and running devices.
    pub fn update_devices(&mut self, avds: Vec<AvdInfo>, devices: Vec<DeviceTarget>)
        requires
            old(self)@.wf(),
        ensures
            final(self)@ == old(self)@.after_refresh(avds@, devices@),
            final(self)@.wf(),
    {
        let mut avds = avds;
        let ghost avds0 = avds@;
        let n = avds.len();
        let mut i: usize = 0;
        while i < n
            invariant
                i <= n,
                n == avds@.len(),
                avds0.len() == n,
                forall|j: int|
                    0 <= j < n ==> (#[trigger] avds@[j]).name == avds0[j].name,
                forall|j: int|
                    0 <= j < i ==> (#[trigger] avds@[j]).is_running == avd_running(
                        avds0[j].name@,
                        devices@,
                    ),
            decreases n - i,
        {
            let running = avd_is_running(&avds[i].name, &devices);
            avds[i].is_running = running;
            i = i + 1;
        }
        assert(avds@ =~= marked_avds(avds0, devices@));

        let ghost start = self@;
        let m = devices.len();
        let mut k: usize = 0;
        proof {
            assert(devices@.take(0) =~= Seq::<DeviceTarget>::empty());
        }
        while k < m
            invariant
                k <= m,
                m == devices@.len(),
                self@ == start.ensure_sessions(devices@.take(k as int)),
                self@.wf(),
            decreases m - k,
        {
            let serial = devices[k].serial.clone();
            let name = devices[k].display_name();
            let _ = self.ensure_session(serial.as_str(), name.as_str());
            proof {
                let t = devices@.take(k + 1);
                assert(t.drop_last() =~= devices@.take(k as int));
                assert(t.last() == devices@[k as int]);
            }
            k = k + 1;
        }
        assert(devices@.take(m as int) =~= devices@);

        let needs_default = match &self.log_state.active_device_serial {
            None => true,
            Some(active) => !has_device(&devices, active),
        };
        if needs_default && devices.len() > 0 {
            self.log_state.active_device_serial = Some(devices[0].serial.clone());
        }
        self.installed_avds = avds;
        self.running_devices = devices;
        if self.avd_selected_index >= self.installed_avds.len() && self.installed_avds.len() > 0 {
            self.avd_selected_index = self.installed_avds.len() - 1;
        }
        if self.device_selected_index >= self.running_devices.len() && self.running_devices.len()
            > 0 {
            self.device_selected_index = self.running_devices.len() - 1;
        }
        proof {
            lemma_ensure_sessions_frame(start, devices@);
        }
    }

    /// The serials of the sessions whose saved history is still to be
    /// loaded, in session order.
    pub fn sessions_awaiting_history(&self) -> (r: Vec<String>)
        ensures
            views(r@) == awaiting_serials(self@.log.sessions),
    {
        let mut r: Vec<String> = Vec::new();
        let n = self.log_state.sessions.len();
        let mut i: usize = 0;
        while i < n
            invariant
                i <= n,
                n == self@.log.sessions.len(),
                views(r@) == awaiting_serials(self@.log.sessions.take(i as int)),
            decreases n - i,
        {
            proof {
                let t = self@.log.sessions.take(i + 1);
                assert(t.drop_last() =~= self@.log.sessions.take(i as int));
                assert(t.last() == self@.log.sessions[i as int]);
            }
            if self.log_state.sessions[i].awaiting_history {
                r.push(self.log_state.sessions[i].serial.clone());
                assert(views(r@) =~= views(r@.drop_last()).push(r@.last()@));
            }
            i = i + 1;
        }
        assert(self@.log.sessions.take(n as int) =~= self@.log.sessions);
        r
    }

    /// Puts the lines that the session's log file held in front of the
    /// session's lines, once: the last `RESTORED_LINES` of them, with the
    /// view at the end. `saved` is `None` when the file could not be read.
    pub fn restore_log_history(&mut self, serial: &str, saved: Option<String>)
        requires
            old(self)@.wf(),
        ensures
            ({
                let v = old(self)@;
                let i = v.session_of(serial@);
                final(self)@ == if i >= 0 && v.log.sessions[i].awaiting_history {
                    v.with_session(i, session_restored(v.log.sessions[i], opt_view(saved)))
                } else {
                    v
                }
            }),
            final(self)@.wf(),
    {
        let i = match self.find_session(serial) {
            Some(i) => i,
            None => {
                return;
            },
        };
        if !self.log_state.sessions[i].awaiting_history {
            return;
        }
        let ghost e = self@;
        match saved {
            Some(content) => {
                let chars = to_chars(content.as_str());
                let stored = split_lines(chars.as_slice());
                let total = stored.len();
                let from = if total > RESTORED_LINES {
                    total - RESTORED_LINES
                } else {
                    0
                };
                let ghost st = lines(content@);
                let mut all: Vec<String> = Vec::new();
                let mut j = from;
                while j < total
                    invariant
                        from <= j <= total,
                        total == st.len(),
                        total == stored@.len(),
                        forall|q: int| 0 <= q < total ==> #[trigger] stored@[q]@ == st[q],
                        views(all@) == st.subrange(from as int, j as int),
                    decreases total - j,
                {
                    let ghost prev = all@;
                    let line = string_from_chars(stored[j].as_slice());
                    assert(line@ == st[j as int]);
                    all.push(line);
                    assert(all@ =~= prev.push(line));
                    assert(views(all@) =~= views(prev).push(line@));
                    assert(views(all@) =~= st.subrange(from as int, j + 1));
                    j = j + 1;
                }
                let session = &mut self.log_state.sessions[i];
                let ghost old_lines = views(session.lines@);
                all.append(&mut session.lines);
                if all.len() > MAX_SESSION_LINES {
                    all = all.split_off(SESSION_DRAIN);
                }
                proof {
                    assert(st.skip(sat_sub(st.len() as int, RESTORED_LINES as int)) =~= st.subrange(
                        from as int,
                        total as int,
                    ));
                    assert(views(all@) =~= lines_after_restore(content@, old_lines));
                }
                session.scroll_offset = all.len();
                session.lines = all;
                session.awaiting_history = false;
                proof {
                    self.lemma_session_replaced(e, i as int);
                }
            },
            None => {
                let session = &mut self.log_state.sessions[i];
                session.awaiting_history = false;
                proof {
                    self.lemma_session_replaced(e, i as int);
                }
            },
        }
    }
}

} // verus!
