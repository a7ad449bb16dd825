//! The data that the application shows and manipulates: devices, virtual
//! devices, Gradle task state and per-device log sessions.
use vstd::prelude::*;

use crate::text::{
    contains, decimal, decimal_chars, has_prefix, has_substring, lowercase, string_from_chars,
    starts_with, to_chars, to_lowercase, trim, trim_bounds, slice_chars,
};

verus! {

// ---------------------------------------------------------------------------
// Devices
// ---------------------------------------------------------------------------

#[derive(Debug, Clone, Copy, PartialEq, Eq, Structural)]
pub enum TargetType {
    Emulator,
    UsbPhone,
}

/// The label shown for a target type.
pub open spec fn target_type_label(t: TargetType) -> Seq<char> {
    match t {
        TargetType::Emulator => "Emulator"@,
        TargetType::UsbPhone => "Physical (USB)"@,
    }
}

impl TargetType {
    /// The text the type is displayed as.
    pub fn label(&self) -> (s: String)
        ensures
            s@ == target_type_label(*self),
    {
        match self {
            TargetType::Emulator => "Emulator".to_owned(),
            TargetType::UsbPhone => "Physical (USB)".to_owned(),
        }
    }
}

/// The characters of an optional string.
pub open spec fn opt_view(o: Option<String>) -> Option<Seq<char>> {
    match o {
        Some(s) => Some(s@),
        None => None,
    }
}

#[derive(Debug, Clone, PartialEq, Eq)]
pub struct DeviceTarget {
    pub serial: String,
    pub state: String,
    pub target_type: TargetType,
    pub product: Option<String>,
    pub model: Option<String>,
    pub device: Option<String>,
    pub transport_id: Option<String>,
    pub boot_completed: bool,
}

/// `"<model> (<serial>)"` when the model is known, otherwise the serial.
pub open spec fn display_name_of(serial: Seq<char>, model: Option<Seq<char>>) -> Seq<char> {
    match model {
        Some(m) => m + " ("@ + serial + ")"@,
        None => serial,
    }
}

impl DeviceTarget {
    pub fn display_name(&self) -> (s: String)
        ensures
            s@ == display_name_of(self.serial@, opt_view(self.model)),
    {
        match &self.model {
            Some(model) => {
                let s = model.clone();
                let s = s.concat(" (");
                let s = s.concat(self.serial.as_str());
                s.concat(")")
            },
            None => self.serial.clone(),
        }
    }
}

#[derive(Debug, Clone, PartialEq, Eq)]
pub struct AvdInfo {
    pub name: String,
    pub is_running: bool,
}

#[derive(Debug, Clone, Copy, PartialEq, Eq, Structural)]
pub enum PaneFocus {
    InstalledAvds,
    RunningTargets,
}

impl Default for PaneFocus {
    fn default() -> (p: Self)
        ensures
            p == PaneFocus::InstalledAvds,
    {
        PaneFocus::InstalledAvds
    }
}

#[derive(Debug, Clone, Copy, PartialEq, Eq, Structural)]
pub enum ScreenType {
    Emu,
    Build,
    Logs,
}

impl Default for ScreenType {
    fn default() -> (s: Self)
        ensures
            s == ScreenType::Emu,
    {
        ScreenType::Emu
    }
}

impl ScreenType {
    /// Position of the screen in the tab bar.
    pub fn index(&self) -> (i: usize)
        ensures
            i == match *self {
                ScreenType::Emu => 0usize,
                ScreenType::Build => 1usize,
                ScreenType::Logs => 2usize,
            },
    {
        match self {
            ScreenType::Emu => 0,
            ScreenType::Build => 1,
            ScreenType::Logs => 2,
        }
    }
}

// ---------------------------------------------------------------------------
// Gradle
// ---------------------------------------------------------------------------

/// Lifecycle of the current Gradle task. Times are in milliseconds, taken
/// from the clock of the program that drives the library.
#[derive(Debug, Clone, Copy, PartialEq, Eq, Structural)]
pub enum TaskStatus {
    Idle,
    Running { started_at_ms: u64 },
    Success { duration_ms: u64 },
    Failed { exit_code: Option<i32>, duration_ms: u64 },
    Cancelled,
}

impl Default for TaskStatus {
    fn default() -> (s: Self)
        ensures
            s == TaskStatus::Idle,
    {
        TaskStatus::Idle
    }
}

#[derive(Debug, Clone)]
pub struct GradleState {
    pub output_lines: Vec<String>,
    pub scroll_offset: usize,
    pub auto_scroll: bool,
    pub status: TaskStatus,
    pub active_task_name: Option<String>,
    pub apk_path: Option<String>,
    pub available_tasks: Vec<(&'static str, &'static str, &'static str)>,
    pub selected_task_index: usize,
}

/// The Gradle state with every string taken by its characters.
#[verifier::ext_equal]
pub struct GradleView {
    pub output_lines: Seq<Seq<char>>,
    pub scroll_offset: usize,
    pub auto_scroll: bool,
    pub status: TaskStatus,
    pub active_task_name: Option<Seq<char>>,
    pub apk_path: Option<Seq<char>>,
    pub available_tasks: Seq<(&'static str, &'static str, &'static str)>,
    pub selected_task_index: usize,
}

impl View for GradleState {
    type V = GradleView;

    open spec fn view(&self) -> GradleView {
        GradleView {
            output_lines: views(self.output_lines@),
            scroll_offset: self.scroll_offset,
            auto_scroll: self.auto_scroll,
            status: self.status,
            active_task_name: opt_view(self.active_task_name),
            apk_path: opt_view(self.apk_path),
            available_tasks: self.available_tasks@,
            selected_task_index: self.selected_task_index,
        }
    }
}

impl GradleView {
    /// The view never scrolls past the end, and auto-scroll rests on the last line.
    pub open spec fn wf(&self) -> bool {
        &&& self.scroll_offset <= self.output_lines.len()
        &&& self.auto_scroll ==> self.scroll_offset == self.output_lines.len()
    }
}

/// The Gradle tasks offered by the build tab: name, description, command.
pub open spec fn default_tasks() -> Seq<(&'static str, &'static str, &'static str)> {
    seq![
        ("assembleDebug", "Build Debug APK", "./gradlew assembleDebug --console=plain"),
        ("installDebug", "Install Debug APK to target", "./gradlew installDebug --console=plain"),
        ("testDebugUnitTest", "Run Unit Tests", "./gradlew testDebugUnitTest --console=plain"),
        ("clean", "Clean build artifacts", "./gradlew clean --console=plain"),
        (
            "syncDependencies",
            "Refresh Gradle Dependencies",
            "./gradlew --refresh-dependencies help --console=plain",
        ),
    ]
}

impl Default for GradleState {
    fn default() -> (g: Self)
        ensures
            g@ == (GradleView {
                output_lines: seq![],
                scroll_offset: 0,
                auto_scroll: true,
                status: TaskStatus::Idle,
                active_task_name: None,
                apk_path: None,
                available_tasks: default_tasks(),
                selected_task_index: 0,
            }),
            g@.wf(),
    {
        GradleState {
            output_lines: Vec::new(),
            scroll_offset: 0,
            auto_scroll: true,
            status: TaskStatus::Idle,
            active_task_name: None,
            apk_path: None,
            available_tasks: vec![
                ("assembleDebug", "Build Debug APK", "./gradlew assembleDebug --console=plain"),
                (
                    "installDebug",
                    "Install Debug APK to target",
                    "./gradlew installDebug --console=plain",
                ),
                (
                    "testDebugUnitTest",
                    "Run Unit Tests",
                    "./gradlew testDebugUnitTest --console=plain",
                ),
                ("clean", "Clean build artifacts", "./gradlew clean --console=plain"),
                (
                    "syncDependencies",
                    "Refresh Gradle Dependencies",
                    "./gradlew --refresh-dependencies help --console=plain",
                ),
            ],
            selected_task_index: 0,
        }
    }
}

// ---------------------------------------------------------------------------
// Log sessions and the log filter
// ---------------------------------------------------------------------------

#[derive(Debug, Clone, Copy, PartialEq, Eq, Structural)]
pub enum SearchMode {
    Normal,
    Editing,
}

impl Default for SearchMode {
    fn default() -> (m: Self)
        ensures
            m == SearchMode::Normal,
    {
        SearchMode::Normal
    }
}

/// The four ways a process id shows in a logcat line: `(PID):`, `( PID):`,
/// `(PID)` and ` PID `.
pub open spec fn pid_patterns(pid: u32) -> Seq<Seq<char>> {
    let d = decimal(pid as nat);
    seq![
        seq!['('] + d + seq![')', ':'],
        seq!['(', ' '] + d + seq![')', ':'],
        seq!['('] + d + seq![')'],
        seq![' '] + d + seq![' '],
    ]
}

/// The line mentions the process id in one of the logcat forms.
pub open spec fn mentions_pid(line: Seq<char>, pid: u32) -> bool {
    exists|k: int| 0 <= k < 4 && has_substring(line, #[trigger] pid_patterns(pid)[k])
}

/// Whether a log line passes the search query.
///
/// An empty (or blank) query lets every line through. A query
/// `package:<name>` keeps the lines that mention the package name in any
/// case, or that carry the resolved process id of the package. Any other
/// query keeps the lines that contain it, ignoring case.
pub open spec fn line_matches(line: Seq<char>, query: Seq<char>, pid: Option<u32>) -> bool {
    let q = trim(query);
    if q.len() == 0 {
        true
    } else if has_prefix(q, "package:"@) {
        let pkg = lowercase(trim(q.skip("package:"@.len() as int)));
        ||| has_substring(lowercase(line), pkg)
        ||| (pid matches Some(p) && mentions_pid(line, p))
    } else {
        has_substring(lowercase(line), lowercase(q))
    }
}

/// The lines that pass the query, in the order they came.
pub open spec fn matching_lines(lines: Seq<Seq<char>>, query: Seq<char>, pid: Option<u32>) -> Seq<
    Seq<char>,
>
    decreases lines.len(),
{
    if lines.len() == 0 {
        seq![]
    } else {
        let rest = matching_lines(lines.drop_last(), query, pid);
        if line_matches(lines.last(), query, pid) {
            rest.push(lines.last())
        } else {
            rest
        }
    }
}

/// The characters of each string.
pub open spec fn views(v: Seq<String>) -> Seq<Seq<char>> {
    v.map_values(|s: String| s@)
}

/// The characters of each string slice.
pub open spec fn str_views(v: Seq<&str>) -> Seq<Seq<char>> {
    v.map_values(|s: &str| s@)
}

#[derive(Debug, Clone)]
pub struct DeviceLogSession {
    pub serial: String,
    pub display_name: String,
    pub is_streaming: bool,
    pub lines: Vec<String>,
    pub scroll_offset: usize,
    pub auto_scroll: bool,
    pub search_query: String,
    pub log_file_path: String,
    pub app_package: Option<String>,
    pub app_pid: Option<u32>,
    /// The lines saved on disk by earlier runs have not been loaded yet.
    pub awaiting_history: bool,
}

/// A log session with every string taken by its characters.
#[verifier::ext_equal]
pub struct SessionView {
    pub serial: Seq<char>,
    pub display_name: Seq<char>,
    pub is_streaming: bool,
    pub lines: Seq<Seq<char>>,
    pub scroll_offset: usize,
    pub auto_scroll: bool,
    pub search_query: Seq<char>,
    pub log_file_path: Seq<char>,
    pub app_package: Option<Seq<char>>,
    pub app_pid: Option<u32>,
    pub awaiting_history: bool,
}

impl SessionView {
    /// The lines that the view shows under the current query.
    pub open spec fn shown(&self) -> Seq<Seq<char>> {
        matching_lines(self.lines, self.search_query, self.app_pid)
    }
}

impl View for DeviceLogSession {
    type V = SessionView;

    open spec fn view(&self) -> SessionView {
        SessionView {
            serial: self.serial@,
            display_name: self.display_name@,
            is_streaming: self.is_streaming,
            lines: views(self.lines@),
            scroll_offset: self.scroll_offset,
            auto_scroll: self.auto_scroll,
            search_query: self.search_query@,
            log_file_path: self.log_file_path@,
            app_package: opt_view(self.app_package),
            app_pid: self.app_pid,
            awaiting_history: self.awaiting_history,
        }
    }
}

/// A new session: no lines, auto-scroll on, no query, history not yet loaded.
pub open spec fn fresh_session(serial: Seq<char>, name: Seq<char>, path: Seq<char>) -> SessionView {
    SessionView {
        serial,
        display_name: name,
        is_streaming: false,
        lines: seq![],
        scroll_offset: 0,
        auto_scroll: true,
        search_query: seq![],
        log_file_path: path,
        app_package: None,
        app_pid: None,
        awaiting_history: true,
    }
}

/// Most log lines a session keeps in memory.
pub const MAX_SESSION_LINES: usize = 10_000;

/// Lines dropped from the front when a session grows past its limit.
pub const SESSION_DRAIN: usize = 1_000;

impl DeviceLogSession {
    pub fn new(serial: String, display_name: String, log_file_path: String) -> (s: Self)
        ensures
            s@ == fresh_session(serial@, display_name@, log_file_path@),
    {
        DeviceLogSession {
            serial,
            display_name,
            is_streaming: false,
            lines: Vec::new(),
            scroll_offset: 0,
            auto_scroll: true,
            search_query: String::new(),
            log_file_path,
            app_package: None,
            app_pid: None,
            awaiting_history: true,
        }
    }

    /// The lines that pass the search query, in order.
    pub fn filtered_lines(&self) -> (r: Vec<&str>)
        ensures
            str_views(r@) == self@.shown(),
    {
        let filter = LineFilter::new(self.search_query.as_str(), self.app_pid);
        let n = self.lines.len();
        let mut r: Vec<&str> = Vec::new();
        let mut i: usize = 0;
        while i < n
            invariant
                i <= n,
                n == self.lines@.len(),
                filter.wf(),
                filter.source_query@ == self.search_query@,
                filter.source_pid@ == self.app_pid,
                str_views(r@) == matching_lines(
                    views(self.lines@).take(i as int),
                    self.search_query@,
                    self.app_pid,
                ),
            decreases n - i,
        {
            let line = self.lines[i].as_str();
            let keep = filter.matches(line);
            proof {
                let ls = views(self.lines@).take(i + 1);
                assert(ls.drop_last() =~= views(self.lines@).take(i as int));
                assert(ls.last() == self.lines@[i as int]@);
            }
            if keep {
                r.push(line);
                assert(str_views(r@) =~= str_views(r@.drop_last()).push(line@));
            }
            i = i + 1;
        }
        assert(views(self.lines@).take(n as int) =~= views(self.lines@));
        r
    }

    /// Number of lines that pass the search query.
    pub fn filtered_count(&self) -> (c: usize)
        ensures
            c == self@.shown().len(),
    {
        let v = self.filtered_lines();
        assert(str_views(v@).len() == v@.len());
        v.len()
    }
}

/// A search query prepared for testing many lines.
pub struct LineFilter {
    /// The query after trimming; empty means that every line passes.
    pub query: Vec<char>,
    /// The lower-cased package name of a `package:` query.
    pub package: Option<Vec<char>>,
    /// The process-id patterns of a `package:` query with a known pid.
    pub pid_patterns: Vec<Vec<char>>,
    /// The lower-cased query otherwise.
    pub lowered: Vec<char>,
    /// The query and process id the filter was made from.
    pub source_query: Ghost<Seq<char>>,
    pub source_pid: Ghost<Option<u32>>,
}

impl LineFilter {
    pub open spec fn wf(&self) -> bool {
        let query = self.source_query@;
        let pid = self.source_pid@;
        let q = trim(query);
        &&& self.query@ == q
        &&& (self.package is Some) == (q.len() > 0 && has_prefix(q, "package:"@))
        &&& self.package matches Some(p) ==> p@ == lowercase(trim(q.skip("package:"@.len() as int)))
        &&& (self.package is Some && pid is Some) ==> {
            &&& self.pid_patterns@.len() == 4
            &&& forall|k: int| 0 <= k < 4 ==> #[trigger] self.pid_patterns@[k]@ == pid_patterns(pid->0)[k]
        }
        &&& (self.package is Some && pid is None) ==> self.pid_patterns@.len() == 0
        &&& (self.package is None && q.len() > 0) ==> self.lowered@ == lowercase(q)
    }

    pub fn new(query: &str, pid: Option<u32>) -> (f: Self)
        ensures
            f.wf(),
            f.source_query@ == query@,
            f.source_pid@ == pid,
    {
        let qv = to_chars(query);
        let (a, b) = trim_bounds(qv.as_slice());
        let q = slice_chars(qv.as_slice(), a, b);
        let prefix = to_chars("package:");
        if q.len() > 0 && starts_with(q.as_slice(), prefix.as_slice()) {
            let rest = slice_chars(q.as_slice(), prefix.len(), q.len());
            assert(rest@ == q@.skip(prefix@.len() as int));
            let (c, d) = trim_bounds(rest.as_slice());
            let name = slice_chars(rest.as_slice(), c, d);
            let name_s = string_from_chars(name.as_slice());
            let lowered_name = to_lowercase(name_s.as_str());
            let package = to_chars(lowered_name.as_str());
            let mut pats: Vec<Vec<char>> = Vec::new();
            match pid {
                Some(p) => {
                    let d = decimal_chars(p);
                    let mut p0: Vec<char> = Vec::new();
                    p0.push('(');
                    let mut d0 = d.clone();
                    p0.append(&mut d0);
                    p0.push(')');
                    p0.push(':');
                    let mut p1: Vec<char> = Vec::new();
                    p1.push('(');
                    p1.push(' ');
                    let mut d1 = d.clone();
                    p1.append(&mut d1);
                    p1.push(')');
                    p1.push(':');
                    let mut p2: Vec<char> = Vec::new();
                    p2.push('(');
                    let mut d2 = d.clone();
                    p2.append(&mut d2);
                    p2.push(')');
                    let mut p3: Vec<char> = Vec::new();
                    p3.push(' ');
                    let mut d3 = d.clone();
                    p3.append(&mut d3);
                    p3.push(' ');
                    proof {
                        let pp = pid_patterns(p);
                        assert(p0@ =~= pp[0]);
                        assert(p1@ =~= pp[1]);
                        assert(p2@ =~= pp[2]);
                        assert(p3@ =~= pp[3]);
                    }
                    pats.push(p0);
                    pats.push(p1);
                    pats.push(p2);
                    pats.push(p3);
                },
                None => {},
            }
            LineFilter {
                query: q,
                package: Some(package),
                pid_patterns: pats,
                lowered: Vec::new(),
                source_query: Ghost(query@),
                source_pid: Ghost(pid),
            }
        } else if q.len() > 0 {
            let qs = string_from_chars(q.as_slice());
            let lowered_q = to_lowercase(qs.as_str());
            let lowered = to_chars(lowered_q.as_str());
            LineFilter {
                query: q,
                package: None,
                pid_patterns: Vec::new(),
                lowered,
                source_query: Ghost(query@),
                source_pid: Ghost(pid),
            }
        } else {
            LineFilter {
                query: q,
                package: None,
                pid_patterns: Vec::new(),
                lowered: Vec::new(),
                source_query: Ghost(query@),
                source_pid: Ghost(pid),
            }
        }
    }

    /// Whether `line` passes the query that the filter was made from.
    pub fn matches(&self, line: &str) -> (b: bool)
        requires
            self.wf(),
        ensures
            b == line_matches(line@, self.source_query@, self.source_pid@),
    {
        if self.query.len() == 0 {
            return true;
        }
        let lowered_line_s = to_lowercase(line);
        let lowered_line = to_chars(lowered_line_s.as_str());
        match &self.package {
            Some(pkg) => {
                if contains(lowered_line.as_slice(), pkg.as_slice()) {
                    return true;
                }
                let chars = to_chars(line);
                let n = self.pid_patterns.len();
                let mut k: usize = 0;
                while k < n
                    invariant
                        k <= n,
                        n == self.pid_patterns@.len(),
                        chars@ == line@,
                        self.wf(),
                        self.package is Some,
                        forall|j: int| 0 <= j < k ==> !has_substring(chars@, #[trigger] self.pid_patterns@[j]@),
                    decreases n - k,
                {
                    if contains(chars.as_slice(), self.pid_patterns[k].as_slice()) {
                        proof {
                            let p = self.source_pid@->0;
                            assert(self.source_pid@ is Some);
                            assert(self.pid_patterns@[k as int]@ == pid_patterns(p)[k as int]);
                            assert(has_substring(line@, pid_patterns(p)[k as int]));
                            assert(mentions_pid(line@, p));
                        }
                        return true;
                    }
                    k = k + 1;
                }
                proof {
                    if self.source_pid@ is Some {
                        let p = self.source_pid@->0;
                        assert forall|j: int| 0 <= j < 4 implies !has_substring(
                            line@,
                            #[trigger] pid_patterns(p)[j],
                        ) by {
                            assert(self.pid_patterns@[j]@ == pid_patterns(p)[j]);
                        }
                        assert(!mentions_pid(line@, p));
                    }
                }
                false
            },
            None => contains(lowered_line.as_slice(), self.lowered.as_slice()),
        }
    }
}

/// The log state with every string taken by its characters.
#[verifier::ext_equal]
pub struct LogView {
    pub active_device_serial: Option<Seq<char>>,
    pub sessions: Seq<SessionView>,
    pub search_mode: SearchMode,
    pub logs_dir: Seq<char>,
}

#[derive(Debug, Clone)]
pub struct LogState {
    pub active_device_serial: Option<String>,
    /// One session per device serial.
    pub sessions: Vec<DeviceLogSession>,
    pub search_mode: SearchMode,
    /// Directory in which each device's log file lives.
    pub logs_dir: String,
}

impl View for LogState {
    type V = LogView;

    open spec fn view(&self) -> LogView {
        LogView {
            active_device_serial: opt_view(self.active_device_serial),
            sessions: self.sessions@.map_values(|s: DeviceLogSession| s@),
            search_mode: self.search_mode,
            logs_dir: self.logs_dir@,
        }
    }
}

} // verus!
