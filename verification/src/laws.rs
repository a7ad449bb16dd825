//! Properties that hold across calls and for every state.
use vstd::prelude::*;

use crate::android::deploy::{
    all_digits, digits_value, first_declared, first_gradle_package, gradle_line_package, parse_u32,
    DeployEvent, DeployPhase, DeployView,
};
use crate::app::device_serials;
use crate::control::event_state;
use crate::events::AppEvent;
use crate::handler::emulator::{emu_outcome, EmuAction};
use crate::handler::logs::logs_outcome;
use crate::model::{TargetType, TaskStatus};
use crate::text::lines;
use crate::android::gradle::{gradle_run_step, GradleRunAction, GradleRunEvent, GradleRunPhase};
use crate::events::EventView;
use crate::android::logcat::{safe_file_char, sanitized};
use crate::app::{
    lemma_first_index, lemma_index_in, lines_after_append, serials_of, status_after_add,
    AppView, MAX_STATUS_LOGS,
};
use crate::events::KeyCode;
use crate::handler::logs::{logs_action_for, LogsAction};
use crate::model::{line_matches, matching_lines, SearchMode, MAX_SESSION_LINES};
use crate::text::{decimal, digit_char, has_substring, trim};

verus! {

/// Switching the emulator pane twice brings back the same state.
pub proof fn law_toggle_focus_twice(v: AppView)
    ensures
        v.focus_toggled().focus_toggled() == v,
{
    assert(v.focus_toggled().focus_toggled() =~= v);
}

/// Selecting the next item and then the previous one returns to the same
/// state, in a well-formed state.
pub proof fn law_next_then_prev(v: AppView)
    requires
        v.wf(),
    ensures
        v.selection_next().selection_prev() == v,
{
    lemma_wrap(v.avd_selected_index as int, v.installed_avds.len() as int);
    lemma_wrap(v.device_selected_index as int, v.running_devices.len() as int);
    let w = v.selection_next();
    let u = w.selection_prev();
    match v.pane_focus {
        crate::model::PaneFocus::InstalledAvds => {
            assert(w.pane_focus == v.pane_focus);
            assert(u.avd_selected_index == v.avd_selected_index);
        },
        crate::model::PaneFocus::RunningTargets => {
            assert(w.pane_focus == v.pane_focus);
            assert(u.device_selected_index == v.device_selected_index);
        },
    }
    assert(u =~= v);
}

/// `(i + 1) % n` is `i + 1`, or 0 at the end of the list.
proof fn lemma_wrap(i: int, n: int)
    ensures
        0 <= i < n ==> (i + 1) % n == if i + 1 == n {
            0
        } else {
            i + 1
        },
{
    if 0 <= i < n {
        if i + 1 == n {
            vstd::arithmetic::div_mod::lemma_mod_self_0(n);
        } else {
            vstd::arithmetic::div_mod::lemma_small_mod((i + 1) as nat, n as nat);
        }
    }
}

/// Selecting the previous item and then the next one returns to the same
/// state, in a well-formed state.
pub proof fn law_prev_then_next(v: AppView)
    requires
        v.wf(),
    ensures
        v.selection_prev().selection_next() == v,
{
    let na = v.installed_avds.len() as int;
    let nd = v.running_devices.len() as int;
    if na > 0 {
        lemma_wrap(if v.avd_selected_index == 0 { na - 1 } else { v.avd_selected_index - 1 }, na);
    }
    if nd > 0 {
        lemma_wrap(if v.device_selected_index == 0 { nd - 1 } else { v.device_selected_index - 1 }, nd);
    }
    let w = v.selection_prev();
    let u = w.selection_next();
    match v.pane_focus {
        crate::model::PaneFocus::InstalledAvds => {
            assert(w.pane_focus == v.pane_focus);
            assert(u.avd_selected_index == v.avd_selected_index);
        },
        crate::model::PaneFocus::RunningTargets => {
            assert(w.pane_focus == v.pane_focus);
            assert(u.device_selected_index == v.device_selected_index);
        },
    }
    assert(u =~= v);
}

/// Scrolling the Gradle output up by `n` lines and down by `n` again returns
/// the view to where it was, when it was at least `n` lines from the top.
pub proof fn law_gradle_scroll_round_trip(v: AppView, n: nat)
    requires
        v.wf(),
        v.gradle.scroll_offset >= n,
    ensures
        v.gradle_scrolled_up(n as int).gradle_scrolled_down(n as int).gradle.scroll_offset
            == v.gradle.scroll_offset,
{
}

/// Switching Gradle auto-scroll twice restores the setting, and the whole
/// state when auto-scroll was on (the view then rests on the last line).
pub proof fn law_gradle_auto_scroll_twice(v: AppView)
    requires
        v.wf(),
    ensures
        v.gradle_auto_scroll_toggled().gradle_auto_scroll_toggled().gradle.auto_scroll
            == v.gradle.auto_scroll,
        v.gradle.auto_scroll ==> v.gradle_auto_scroll_toggled().gradle_auto_scroll_toggled() == v,
{
    if v.gradle.auto_scroll {
        assert(v.gradle_auto_scroll_toggled().gradle_auto_scroll_toggled() =~= v);
    }
}

/// The activity log never holds more than `MAX_STATUS_LOGS` lines, and the
/// line just added is its last.
pub proof fn law_status_log_bounded(logs: Seq<Seq<char>>, line: Seq<char>)
    requires
        logs.len() <= MAX_STATUS_LOGS,
    ensures
        status_after_add(logs, line).len() <= MAX_STATUS_LOGS,
        status_after_add(logs, line).last() == line,
{
}

/// A session never holds more than `MAX_SESSION_LINES` lines, and the line
/// that arrived last is its last.
pub proof fn law_session_lines_bounded(ls: Seq<Seq<char>>, line: Seq<char>)
    requires
        ls.len() <= MAX_SESSION_LINES,
    ensures
        lines_after_append(ls, line).len() <= MAX_SESSION_LINES,
        lines_after_append(ls, line).last() == line,
{
}

/// With an empty (or blank) query every line is shown.
pub proof fn law_blank_query_shows_all(lines: Seq<Seq<char>>, query: Seq<char>, pid: Option<u32>)
    requires
        trim(query).len() == 0,
    ensures
        matching_lines(lines, query, pid) == lines,
    decreases lines.len(),
{
    if lines.len() > 0 {
        law_blank_query_shows_all(lines.drop_last(), query, pid);
        assert(lines.drop_last().push(lines.last()) =~= lines);
    }
}

/// The filter keeps lines in their order and shows only lines that pass the
/// query: each shown line is a line of the session that matches.
pub proof fn law_filter_is_subsequence(lines: Seq<Seq<char>>, query: Seq<char>, pid: Option<u32>)
    ensures
        matching_lines(lines, query, pid).len() <= lines.len(),
        forall|k: int|
            0 <= k < matching_lines(lines, query, pid).len() ==> lines.contains(
                #[trigger] matching_lines(lines, query, pid)[k],
            ) && line_matches(matching_lines(lines, query, pid)[k], query, pid),
    decreases lines.len(),
{
    if lines.len() > 0 {
        let init = lines.drop_last();
        law_filter_is_subsequence(init, query, pid);
        let m0 = matching_lines(init, query, pid);
        let m = matching_lines(lines, query, pid);
        assert forall|k: int| 0 <= k < m.len() implies lines.contains(#[trigger] m[k])
            && line_matches(m[k], query, pid) by {
            if k < m0.len() {
                assert(m[k] == m0[k]);
                assert(init.contains(m0[k]));
                let j = choose|j: int| 0 <= j < init.len() && init[j] == m0[k];
                assert(lines[j] == init[j]);
            } else {
                assert(m[k] == lines.last());
                assert(lines[lines.len() - 1] == lines.last());
            }
        }
    }
}

/// Making sure a session exists twice is the same as once.
pub proof fn law_ensure_session_idempotent(v: AppView, serial: Seq<char>, name: Seq<char>)
    ensures
        v.ensure_session(serial, name).ensure_session(serial, name) == v.ensure_session(
            serial,
            name,
        ),
{
    let e = v.ensure_session(serial, name);
    let i = v.session_of(serial);
    lemma_index_in(serials_of(v.log.sessions), serial);
    if i >= 0 {
        assert(serials_of(e.log.sessions) =~= serials_of(v.log.sessions));
        if name.len() > 0 {
            assert(e.log.sessions[i].display_name == name);
            assert(e.ensure_session(serial, name) =~= e);
        }
    } else {
        let ss = serials_of(e.log.sessions);
        assert(ss =~= serials_of(v.log.sessions).push(serial));
        assert forall|j: int| 0 <= j < v.log.sessions.len() implies #[trigger] ss[j] != serial by {
            assert(ss[j] == serials_of(v.log.sessions)[j]);
        }
        lemma_first_index(ss, serial, v.log.sessions.len() as int);
        if name.len() > 0 {
            assert(e.ensure_session(serial, name) =~= e);
        }
    }
}

/// Switching the log view to another device keeps the lines of every
/// session that existed before.
pub proof fn law_switch_keeps_lines(v: AppView, idx: int)
    requires
        0 <= idx < v.running_devices.len(),
    ensures
        v.switch_log_device(idx).log.sessions.len() >= v.log.sessions.len(),
        forall|j: int|
            0 <= j < v.log.sessions.len() ==> (#[trigger] v.switch_log_device(idx).log.sessions[j]).lines
                == v.log.sessions[j].lines,
{
    let d = v.running_devices[idx];
    lemma_index_in(serials_of(v.log.sessions), d.serial@);
}

/// After a device listing with at least one device, the active log device
/// is one of the listed devices, and every listed device has a session.
pub proof fn law_refresh_selects_listed_device(
    v: AppView,
    avds: Seq<crate::model::AvdInfo>,
    devices: Seq<crate::model::DeviceTarget>,
)
    requires
        v.wf(),
        devices.len() > 0,
    ensures
        v.after_refresh(avds, devices).log.active_device_serial matches Some(a)
            && crate::app::device_serials(devices).contains(a),
        forall|k: int|
            0 <= k < devices.len() ==> v.after_refresh(avds, devices).session_of(
                (#[trigger] devices[k]).serial@,
            ) >= 0,
{
    let ds = crate::app::device_serials(devices);
    assert(ds[0] == devices[0].serial@);
    lemma_sessions_cover(v, devices);
}

/// Every device that sessions were made for has one.
proof fn lemma_sessions_cover(v: AppView, devices: Seq<crate::model::DeviceTarget>)
    ensures
        forall|k: int|
            0 <= k < devices.len() ==> v.ensure_sessions(devices).session_of(
                (#[trigger] devices[k]).serial@,
            ) >= 0,
    decreases devices.len(),
{
    if devices.len() > 0 {
        let init = devices.drop_last();
        lemma_sessions_cover(v, init);
        let w = v.ensure_sessions(init);
        let d = devices.last();
        let name = crate::model::display_name_of(d.serial@, crate::model::opt_view(d.model));
        let e = w.ensure_session(d.serial@, name);
        lemma_ensure_keeps_sessions(w, d.serial@, name);
        assert forall|k: int| 0 <= k < devices.len() implies e.session_of(
            (#[trigger] devices[k]).serial@,
        ) >= 0 by {
            if k < devices.len() - 1 {
                assert(devices[k] == init[k]);
                lemma_index_in(serials_of(w.log.sessions), init[k].serial@);
                lemma_index_in(serials_of(e.log.sessions), init[k].serial@);
                let j = w.session_of(init[k].serial@);
                assert(serials_of(e.log.sessions)[j] == init[k].serial@);
            }
        }
    }
}

/// Making sure a session exists keeps every session's serial, adds at most
/// the new one, and leaves the session of `serial` in place.
proof fn lemma_ensure_keeps_sessions(v: AppView, serial: Seq<char>, name: Seq<char>)
    ensures
        v.ensure_session(serial, name).log.sessions.len() >= v.log.sessions.len(),
        forall|j: int|
            0 <= j < v.log.sessions.len() ==> serials_of(v.ensure_session(serial, name).log.sessions)[j]
                == #[trigger] serials_of(v.log.sessions)[j],
        v.ensure_session(serial, name).session_of(serial) >= 0,
{
    let e = v.ensure_session(serial, name);
    lemma_index_in(serials_of(v.log.sessions), serial);
    let i = v.session_of(serial);
    if i >= 0 {
        assert(serials_of(e.log.sessions) =~= serials_of(v.log.sessions));
    } else {
        let ss = serials_of(e.log.sessions);
        assert(ss =~= serials_of(v.log.sessions).push(serial));
        lemma_index_in(ss, serial);
        assert(ss[ss.len() - 1] == serial);
    }
    lemma_index_in(serials_of(e.log.sessions), serial);
    if e.session_of(serial) < 0 {
        if i >= 0 {
            assert(serials_of(e.log.sessions)[i] == serial);
        } else {
            assert(serials_of(e.log.sessions)[v.log.sessions.len() as int] == serial);
        }
    }
}

/// Sanitizing a serial twice is the same as once, and keeps its length.
pub proof fn law_sanitize_idempotent(serial: Seq<char>)
    ensures
        sanitized(sanitized(serial)) == sanitized(serial),
        sanitized(serial).len() == serial.len(),
{
    let s1 = sanitized(serial);
    assert forall|i: int| 0 <= i < s1.len() implies safe_file_char(#[trigger] s1[i]) by {}
    assert(sanitized(s1) =~= s1);
}

/// While the search bar is edited, every typed character goes into the query.
pub proof fn law_editing_captures_characters(c: char)
    ensures
        logs_action_for(KeyCode::Char(c), SearchMode::Editing) == Some(LogsAction::SearchChar(c)),
{
}

proof fn lemma_digit_char(d: nat)
    requires
        d < 10,
    ensures
        digit_char(d) as u32 - 48 == d,
        crate::android::deploy::is_digit(digit_char(d)),
        digit_char(d) != '+',
{
}

proof fn lemma_decimal_digits(n: nat)
    ensures
        decimal(n).len() > 0,
        all_digits(decimal(n)),
        digits_value(decimal(n)) == n,
        decimal(n)[0] != '+',
    decreases n,
{
    lemma_digit_char(n % 10);
    if n < 10 {
        lemma_digit_char(n);
        let d = decimal(n);
        assert(d.drop_last() =~= Seq::<char>::empty());
        assert(digits_value(d) == digits_value(d.drop_last()) * 10 + (d.last() as u32 - 48));
    } else {
        lemma_decimal_digits(n / 10);
        let d = decimal(n);
        assert(d.drop_last() =~= decimal(n / 10));
        assert forall|i: int| 0 <= i < d.len() implies crate::android::deploy::is_digit(#[trigger] d[i]) by {
            if i < d.len() - 1 {
                assert(d[i] == decimal(n / 10)[i]);
            }
        }
        assert(d[0] == decimal(n / 10)[0]);
        assert(digits_value(d) == digits_value(d.drop_last()) * 10 + (d.last() as u32 - 48));
        assert(d.last() == digit_char(n % 10));
        assert(n == (n / 10) * 10 + n % 10);
    }
}

/// Reading back the decimal digits of a number gives the number.
pub proof fn law_parse_decimal_round_trip(n: u32)
    ensures
        parse_u32(decimal(n as nat)) == Some(n),
{
    lemma_decimal_digits(n as nat);
}

/// The events among `evs` that end a Gradle task.
pub open spec fn task_ends(evs: Seq<EventView>) -> Seq<EventView> {
    evs.filter(|e: EventView| e is GradleTaskFinished)
}

/// The events among `evs` that end a user action.
pub open spec fn action_ends(evs: Seq<EventView>) -> Seq<EventView> {
    evs.filter(|e: EventView| e is ActionFinished)
}

/// A finished Gradle run stays finished and reports nothing more.
pub proof fn law_gradle_run_done_is_final(
    args: Seq<Seq<char>>,
    name: Seq<char>,
    e: GradleRunEvent,
)
    ensures
        gradle_run_step(args, name, GradleRunPhase::Done, e) == (
            GradleRunPhase::Done,
            Seq::<EventView>::empty(),
            GradleRunAction::Finish,
        ),
{
}

/// A Gradle run reports the end of its task exactly once: the step that
/// finishes the run sends one `GradleTaskFinished`, for the run's task, as
/// its last event, and no other step sends one.
pub proof fn law_gradle_run_reports_end_once(
    args: Seq<Seq<char>>,
    name: Seq<char>,
    phase: GradleRunPhase,
    e: GradleRunEvent,
)
    ensures
        ({
            let (next, evs, _) = gradle_run_step(args, name, phase, e);
            if phase != GradleRunPhase::Done && next == GradleRunPhase::Done {
                &&& task_ends(evs).len() == 1
                &&& evs.last() is GradleTaskFinished
                &&& evs.last()->task == name
            } else {
                task_ends(evs).len() == 0
            }
        }),
{
    reveal_with_fuel(Seq::filter, 5);
    let (next, evs, _) = gradle_run_step(args, name, phase, e);
    if evs.len() > 0 {
        assert(evs.drop_last().len() == evs.len() - 1);
    }
    if evs.len() == 4 {
        assert(evs.drop_last().drop_last().drop_last().drop_last() =~= Seq::<EventView>::empty());
    }
    if evs.len() == 2 {
        assert(evs.drop_last().drop_last() =~= Seq::<EventView>::empty());
    }
    if evs.len() == 1 {
        assert(evs.drop_last() =~= Seq::<EventView>::empty());
    }
}

/// A deployment reports the end of its action exactly once, so the busy
/// state that its start raised is lowered: the step that ends the run sends
/// one `ActionFinished`, and no other step sends one.
pub proof fn law_deploy_reports_end_once(v: DeployView, e: DeployEvent)
    requires
        v.wf(),
    ensures
        ({
            let (w, evs, _) = v.step(e);
            if v.phase != DeployPhase::Done && w.phase == DeployPhase::Done {
                action_ends(evs).len() == 1
            } else {
                action_ends(evs).len() == 0
            }
        }),
{
    reveal_with_fuel(Seq::filter, 5);
    let (w, evs, _) = v.step(e);
    if evs.len() == 3 {
        assert(evs.drop_last().drop_last().drop_last() =~= Seq::<EventView>::empty());
    }
    if evs.len() == 2 {
        assert(evs.drop_last().drop_last() =~= Seq::<EventView>::empty());
    }
    if evs.len() == 1 {
        assert(evs.drop_last() =~= Seq::<EventView>::empty());
    }
}

/// Stopping a stream undoes starting it: when `start_logcat_stream` added
/// `serial` to the running streams `before` (giving `started`) and
/// `toggle_logcat_stream` then stopped it (giving `after`), the same streams
/// run as before.
pub proof fn law_stop_undoes_start(
    before: Seq<Seq<char>>,
    started: Seq<Seq<char>>,
    after: Seq<Seq<char>>,
    serial: Seq<char>,
)
    requires
        !before.contains(serial),
        started == before.push(serial),
        !after.contains(serial),
        forall|s: Seq<char>| s != serial ==> (after.contains(s) <==> started.contains(s)),
    ensures
        after.to_set() == before.to_set(),
{
    assert forall|s: Seq<char>| after.to_set().contains(s) <==> before.to_set().contains(s) by {
        if s != serial {
            if started.contains(s) {
                let k = choose|k: int| 0 <= k < started.len() && started[k] == s;
                assert(k < before.len());
                assert(before[k] == s);
            }
            if before.contains(s) {
                let k = choose|k: int| 0 <= k < before.len() && before[k] == s;
                assert(started[k] == s);
            }
        }
    }
    assert(after.to_set() =~= before.to_set());
}

// ---------------------------------------------------------------------------
// Package detection: the first declaration wins
// ---------------------------------------------------------------------------

proof fn lemma_first_declared_at(ls: Seq<Seq<char>>, k: int)
    requires
        0 <= k < ls.len(),
        gradle_line_package(ls[k]) is Some,
        forall|j: int| 0 <= j < k ==> gradle_line_package(#[trigger] ls[j]) is None,
    ensures
        first_declared(ls) == gradle_line_package(ls[k]),
    decreases k,
{
    if k > 0 {
        let t = ls.drop_first();
        assert(gradle_line_package(ls[0]) is None);
        assert forall|j: int| 0 <= j < k - 1 implies gradle_line_package(#[trigger] t[j]) is None by {
            assert(t[j] == ls[j + 1]);
        }
        assert(t[k - 1] == ls[k]);
        lemma_first_declared_at(t, k - 1);
    }
}

proof fn lemma_first_declared_none(ls: Seq<Seq<char>>)
    requires
        forall|j: int| 0 <= j < ls.len() ==> gradle_line_package(#[trigger] ls[j]) is None,
    ensures
        first_declared(ls) is None,
    decreases ls.len(),
{
    if ls.len() > 0 {
        let t = ls.drop_first();
        assert(gradle_line_package(ls[0]) is None);
        assert forall|j: int| 0 <= j < t.len() implies gradle_line_package(#[trigger] t[j]) is None by {
            assert(t[j] == ls[j + 1]);
        }
        lemma_first_declared_none(t);
    }
}

/// The package that a build script declares is the one of its FIRST line
/// that declares one (a `namespace` or `applicationId` line before any
/// later `applicationIdSuffix` or second declaration), and there is none
/// when no line declares one. `package_from_gradle` returns this package.
pub proof fn law_first_declaring_line_wins(ls: Seq<Seq<char>>)
    ensures
        forall|k: int|
            0 <= k < ls.len() && (#[trigger] gradle_line_package(ls[k])) is Some && (forall|j: int|
                0 <= j < k ==> gradle_line_package(#[trigger] ls[j]) is None) ==> first_declared(ls)
                == gradle_line_package(ls[k]),
        (forall|k: int| 0 <= k < ls.len() ==> (#[trigger] gradle_line_package(ls[k])) is None)
            ==> first_declared(ls) is None,
{
    assert forall|k: int|
        0 <= k < ls.len() && (#[trigger] gradle_line_package(ls[k])) is Some && (forall|j: int|
            0 <= j < k ==> gradle_line_package(#[trigger] ls[j]) is None) implies first_declared(ls)
        == gradle_line_package(ls[k]) by {
        lemma_first_declared_at(ls, k);
    }
    if forall|k: int| 0 <= k < ls.len() ==> (#[trigger] gradle_line_package(ls[k])) is None {
        lemma_first_declared_none(ls);
    }
}

/// The package a readable build script declares, if any.
pub open spec fn script_package(f: Option<Seq<char>>) -> Option<Seq<char>> {
    match f {
        Some(c) => first_declared(lines(c)),
        None => None,
    }
}

proof fn lemma_first_script_at(fs: Seq<Option<Seq<char>>>, k: int)
    requires
        0 <= k < fs.len(),
        script_package(fs[k]) is Some,
        forall|j: int| 0 <= j < k ==> script_package(#[trigger] fs[j]) is None,
    ensures
        first_gradle_package(fs) == script_package(fs[k]),
    decreases k,
{
    if k > 0 {
        let t = fs.drop_first();
        assert(script_package(fs[0]) is None);
        assert forall|j: int| 0 <= j < k - 1 implies script_package(#[trigger] t[j]) is None by {
            assert(t[j] == fs[j + 1]);
        }
        assert(t[k - 1] == fs[k]);
        lemma_first_script_at(t, k - 1);
    }
}

/// Of the build scripts, looked at in order, the first one that declares a
/// package gives it: a later script is not asked.
pub proof fn law_first_declaring_script_wins(fs: Seq<Option<Seq<char>>>, k: int)
    requires
        0 <= k < fs.len(),
        script_package(fs[k]) is Some,
        forall|j: int| 0 <= j < k ==> script_package(#[trigger] fs[j]) is None,
    ensures
        first_gradle_package(fs) == script_package(fs[k]),
{
    lemma_first_script_at(fs, k);
}

// ---------------------------------------------------------------------------
// Device refresh keeps the log device the user is on
// ---------------------------------------------------------------------------

/// A device listing keeps the active log device while it is still listed;
/// only when none is active, or the active one is gone, does the view fall
/// back to the first listed device; with no device listed it stays.
pub proof fn law_refresh_keeps_listed_log_device(
    v: AppView,
    avds: Seq<crate::model::AvdInfo>,
    devices: Seq<crate::model::DeviceTarget>,
)
    ensures
        forall|k: int|
            0 <= k < devices.len() && v.log.active_device_serial == Some(
                (#[trigger] devices[k]).serial@,
            ) ==> v.after_refresh(avds, devices).log.active_device_serial == Some(devices[k].serial@),
        (v.log.active_device_serial is None || (forall|k: int|
            0 <= k < devices.len() ==> Some((#[trigger] devices[k]).serial@)
                != v.log.active_device_serial)) && devices.len() > 0 ==> v.after_refresh(
            avds,
            devices,
        ).log.active_device_serial == Some(devices[0].serial@),
        devices.len() == 0 ==> v.after_refresh(avds, devices).log.active_device_serial
            == v.log.active_device_serial,
{
    let ds = device_serials(devices);
    assert forall|k: int|
        0 <= k < devices.len() && v.log.active_device_serial == Some(
            (#[trigger] devices[k]).serial@,
        ) implies v.after_refresh(avds, devices).log.active_device_serial == Some(devices[k].serial@) by {
        assert(ds[k] == devices[k].serial@);
        assert(ds.contains(devices[k].serial@));
    }
    match v.log.active_device_serial {
        Some(a) => {
            if ds.contains(a) {
                let k = choose|k: int| 0 <= k < ds.len() && ds[k] == a;
                assert(ds[k] == devices[k].serial@);
            }
        },
        None => {},
    }
}

// ---------------------------------------------------------------------------
// Gradle task outcome
// ---------------------------------------------------------------------------

/// When a Gradle task finishes, its status follows the success flag alone:
/// `Success` with the duration when it succeeded, whatever the exit code,
/// else `Failed` with the exit code and duration. A reported APK path
/// replaces the shown one, and nothing else of the Gradle state changes.
pub proof fn law_finished_task_status(
    v: AppView,
    task: String,
    success: bool,
    exit_code: Option<i32>,
    duration_ms: u64,
    apk_path: Option<String>,
    now_ms: u64,
)
    ensures
        ({
            let w = event_state(
                v,
                AppEvent::GradleTaskFinished { task, success, exit_code, duration_ms, apk_path },
                now_ms,
            );
            &&& success ==> w.gradle.status == TaskStatus::Success { duration_ms }
            &&& !success ==> w.gradle.status == TaskStatus::Failed { exit_code, duration_ms }
            &&& w.gradle.apk_path == match apk_path {
                Some(p) => Some(p@),
                None => v.gradle.apk_path,
            }
            &&& w.gradle.output_lines == v.gradle.output_lines
            &&& w.gradle.active_task_name == v.gradle.active_task_name
        }),
{
}

// ---------------------------------------------------------------------------
// Emulator tab commands follow the selection
// ---------------------------------------------------------------------------

/// Each emulator tab action asks for outside work on exactly the selected
/// item: the selected AVD is started; scrcpy is opened and `emu kill` sent
/// for the selected device when it is an emulator (never for a USB phone);
/// build & deploy goes to the selected device of either kind; and without a
/// selection nothing is asked for.
pub proof fn law_emulator_commands_follow_selection(v: AppView)
    ensures
        ({
            let i = v.device_selected_index as int;
            let a = v.avd_selected_index as int;
            let devs = v.running_devices;
            &&& (0 <= i < devs.len() && devs[i].target_type == TargetType::Emulator) ==> {
                &&& emu_outcome(v, EmuAction::LaunchScrcpy).1 == Some(
                    (EmuAction::LaunchScrcpy, devs[i].serial@),
                )
                &&& emu_outcome(v, EmuAction::StopEmulator).1 == Some(
                    (EmuAction::StopEmulator, devs[i].serial@),
                )
            }
            &&& (0 <= i < devs.len() && devs[i].target_type == TargetType::UsbPhone) ==> {
                &&& emu_outcome(v, EmuAction::LaunchScrcpy).1 is None
                &&& emu_outcome(v, EmuAction::StopEmulator).1 is None
            }
            &&& 0 <= i < devs.len() ==> emu_outcome(v, EmuAction::BuildAndDeploy).1 == Some(
                (EmuAction::BuildAndDeploy, devs[i].serial@),
            )
            &&& i >= devs.len() ==> {
                &&& emu_outcome(v, EmuAction::LaunchScrcpy).1 is None
                &&& emu_outcome(v, EmuAction::StopEmulator).1 is None
                &&& emu_outcome(v, EmuAction::BuildAndDeploy).1 is None
            }
            &&& 0 <= a < v.installed_avds.len() ==> emu_outcome(v, EmuAction::RunSelectedAvd).1
                == Some((EmuAction::RunSelectedAvd, v.installed_avds[a].name@))
            &&& a >= v.installed_avds.len() ==> emu_outcome(v, EmuAction::RunSelectedAvd).1 is None
            &&& emu_outcome(v, EmuAction::RefreshDevices).1 == Some(
                (EmuAction::RefreshDevices, Seq::<char>::empty()),
            )
        }),
{
}

// ---------------------------------------------------------------------------
// Moving between device log tabs
// ---------------------------------------------------------------------------

/// From the tab of the device at position `p` (the first listed with the
/// active serial), the next-device action opens the tab to its right
/// (wrapping to the first) and the previous-device action the tab to its
/// left (wrapping to the last); neither asks for outside work.
pub proof fn law_device_tabs_move_by_one(v: AppView, p: int)
    requires
        0 <= p < v.running_devices.len(),
        v.log.active_device_serial == Some(v.running_devices[p].serial@),
        forall|j: int| 0 <= j < p ==> (#[trigger] v.running_devices[j]).serial@ != v.running_devices[p].serial@,
    ensures
        ({
            let n = v.running_devices.len() as int;
            let next = logs_outcome(v, LogsAction::NextDevice);
            let prev = logs_outcome(v, LogsAction::PrevDevice);
            &&& next.0.log.active_device_serial == Some(v.running_devices[(p + 1) % n].serial@)
            &&& prev.0.log.active_device_serial == Some(
                v.running_devices[if p == 0 { n - 1 } else { p - 1 }].serial@,
            )
            &&& next.1 is None
            &&& prev.1 is None
        }),
{
    let ds = device_serials(v.running_devices);
    assert forall|j: int| 0 <= j < p implies #[trigger] ds[j] != ds[p] by {
        assert(ds[j] == v.running_devices[j].serial@);
    }
    lemma_first_index(ds, v.running_devices[p].serial@, p);
}

/// With no listed device active, the next-device action opens the second
/// tab (the first when only one is listed) and the previous-device action
/// the last one.
pub proof fn law_device_tabs_from_unlisted(v: AppView)
    requires
        v.running_devices.len() > 0,
        v.log.active_device_serial is None || forall|j: int|
            0 <= j < v.running_devices.len() ==> Some((#[trigger] v.running_devices[j]).serial@)
                != v.log.active_device_serial,
    ensures
        ({
            let n = v.running_devices.len() as int;
            &&& logs_outcome(v, LogsAction::NextDevice).0.log.active_device_serial == Some(
                v.running_devices[1int % n].serial@,
            )
            &&& logs_outcome(v, LogsAction::PrevDevice).0.log.active_device_serial == Some(
                v.running_devices[n - 1].serial@,
            )
        }),
{
    let ds = device_serials(v.running_devices);
    match v.log.active_device_serial {
        Some(a) => {
            lemma_index_in(ds, a);
            let k = crate::app::index_in(ds, a);
            if k >= 0 {
                assert(ds[k] == v.running_devices[k].serial@);
            }
        },
        None => {},
    }
}

/// A number key opens the tab of the device at that position when there is
/// one, and changes nothing otherwise.
pub proof fn law_number_key_selects_tab(v: AppView, idx: usize)
    ensures
        idx < v.running_devices.len() ==> logs_outcome(v, LogsAction::SelectDeviceIndex(idx)).0.log.active_device_serial
            == Some(v.running_devices[idx as int].serial@),
        idx >= v.running_devices.len() ==> logs_outcome(v, LogsAction::SelectDeviceIndex(idx)).0 == v,
{
}

/// A device listing shows the AVDs given, in order and with their names,
/// each marked running exactly when its name occurs in the serial, model or
/// product of a listed device; it shows the devices given; and each
/// selection stays where it was while in range, else moves to the last item.
pub proof fn law_refresh_lists_and_selections(
    v: AppView,
    avds: Seq<crate::model::AvdInfo>,
    devices: Seq<crate::model::DeviceTarget>,
)
    ensures
        ({
            let w = v.after_refresh(avds, devices);
            &&& w.installed_avds.len() == avds.len()
            &&& forall|i: int| 0 <= i < avds.len() ==> (#[trigger] w.installed_avds[i]).name == avds[i].name
            &&& forall|i: int| 0 <= i < avds.len() ==> ((#[trigger] w.installed_avds[i]).is_running <==> exists|k: int|
                0 <= k < devices.len() && {
                    let d = #[trigger] devices[k];
                    ||| has_substring(d.serial@, avds[i].name@)
                    ||| (d.model matches Some(m) && has_substring(m@, avds[i].name@))
                    ||| (d.product matches Some(p) && has_substring(p@, avds[i].name@))
                })
            &&& w.running_devices == devices
            &&& v.avd_selected_index < avds.len() ==> w.avd_selected_index == v.avd_selected_index
            &&& (v.avd_selected_index >= avds.len() && avds.len() > 0) ==> w.avd_selected_index
                == avds.len() - 1
            &&& avds.len() == 0 ==> w.avd_selected_index == v.avd_selected_index
            &&& v.device_selected_index < devices.len() ==> w.device_selected_index
                == v.device_selected_index
            &&& (v.device_selected_index >= devices.len() && devices.len() > 0)
                ==> w.device_selected_index == devices.len() - 1
            &&& devices.len() == 0 ==> w.device_selected_index == v.device_selected_index
        }),
{
}

/// What the background events do to the busy flag, the activity log and
/// the Gradle status: a started action marks the application busy with it
/// and logs `>>> <message>`; a finished one clears both and logs
/// `✔ [<action>] <message>` or `✘ [<action>] <message>`; a status line is
/// logged as it is; a started task runs from the time the event is handled
/// under its name; a cancelled one is marked cancelled.
pub proof fn law_events_update_activity(v: AppView, msg: String, action: String, success: bool, now_ms: u64)
    requires
        v.status_logs.len() <= MAX_STATUS_LOGS,
    ensures
        ({
            let w = event_state(v, AppEvent::ActionStarted(msg), now_ms);
            &&& w.is_busy
            &&& w.current_action == Some(msg@)
            &&& w.status_logs.last() == ">>> "@ + msg@
        }),
        ({
            let w = event_state(
                v,
                AppEvent::ActionFinished { action, success, message: msg },
                now_ms,
            );
            &&& !w.is_busy
            &&& w.current_action is None
            &&& w.status_logs.last() == (if success {
                "✔ ["@
            } else {
                "✘ ["@
            }) + action@ + "] "@ + msg@
        }),
        event_state(v, AppEvent::StatusLog(msg), now_ms).status_logs.last() == msg@,
        event_state(v, AppEvent::StatusLog(msg), now_ms).status_logs.len() <= MAX_STATUS_LOGS,
        ({
            let w = event_state(v, AppEvent::GradleTaskStarted(msg), now_ms);
            &&& w.gradle.status == TaskStatus::Running { started_at_ms: now_ms }
            &&& w.gradle.active_task_name == Some(msg@)
            &&& w.gradle.output_lines == v.gradle.output_lines
        }),
        event_state(v, AppEvent::GradleTaskCancelled, now_ms).gradle.status == TaskStatus::Cancelled,
        event_state(v, AppEvent::Tick, now_ms) == v,
{
    law_status_log_bounded(v.status_logs, ">>> "@ + msg@);
    law_status_log_bounded(
        v.status_logs,
        (if success {
            "✔ ["@
        } else {
            "✘ ["@
        }) + action@ + "] "@ + msg@,
    );
    law_status_log_bounded(v.status_logs, msg@);
}

} // verus!
