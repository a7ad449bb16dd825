//! Keys and actions of the logs tab.
use vstd::prelude::*;

use crate::app::{session_at_bottom, session_at_top, session_auto_scroll_toggled, session_cleared,
    session_scrolled_down, session_scrolled_up, session_with_query, AppState, AppView};
use crate::events::KeyCode;
use crate::model::{LogView, SearchMode};
use crate::text::{push_char, slice_chars, string_from_chars, to_chars};

verus! {

#[derive(Debug, Clone, Copy, PartialEq, Eq, Structural)]
pub enum LogsAction {
    EnterSearch,
    ExitSearch,
    SearchChar(char),
    SearchBackspace,
    ClearSearch,
    NextDevice,
    PrevDevice,
    SelectDeviceIndex(usize),
    ToggleAutoScroll,
    ToggleStream,
    ClearScreen,
    ScrollUp(usize),
    ScrollDown(usize),
    ScrollTop,
    ScrollBottom,
}

/// Lines scrolled by the page keys.
pub const PAGE_LINES: usize = 15;

/// The action that a key triggers in the logs tab. While the search bar is
/// edited, every character goes into the query.
pub open spec fn logs_action_for(key: KeyCode, mode: SearchMode) -> Option<LogsAction> {
    match mode {
        SearchMode::Editing => match key {
            KeyCode::Esc | KeyCode::Enter => Some(LogsAction::ExitSearch),
            KeyCode::Backspace => Some(LogsAction::SearchBackspace),
            KeyCode::Char(c) => Some(LogsAction::SearchChar(c)),
            _ => None,
        },
        SearchMode::Normal => match key {
            KeyCode::Char('/') => Some(LogsAction::EnterSearch),
            KeyCode::Char('c') => Some(LogsAction::ClearSearch),
            KeyCode::Tab | KeyCode::Right | KeyCode::Char(']') => Some(
                LogsAction::NextDevice,
            ),
            KeyCode::BackTab | KeyCode::Left | KeyCode::Char('h') | KeyCode::Char('[') => Some(
                LogsAction::PrevDevice,
            ),
            KeyCode::Char(d) => if '1' <= d && d <= '9' {
                Some(LogsAction::SelectDeviceIndex((d as u32 - '1' as u32) as usize))
            } else if d == 'a' {
                Some(LogsAction::ToggleAutoScroll)
            } else if d == 'k' || d == 's' {
                Some(LogsAction::ToggleStream)
            } else if d == 'x' || d == 'l' {
                Some(LogsAction::ClearScreen)
            } else if d == 'g' {
                Some(LogsAction::ScrollTop)
            } else if d == 'G' {
                Some(LogsAction::ScrollBottom)
            } else {
                None
            },
            KeyCode::Up => Some(LogsAction::ScrollUp(1)),
            KeyCode::Down => Some(LogsAction::ScrollDown(1)),
            KeyCode::PageUp => Some(LogsAction::ScrollUp(PAGE_LINES)),
            KeyCode::PageDown => Some(LogsAction::ScrollDown(PAGE_LINES)),
            KeyCode::Home => Some(LogsAction::ScrollTop),
            KeyCode::End => Some(LogsAction::ScrollBottom),
            _ => None,
        },
    }
}

/// Maps a key of the logs tab to its action.
pub fn map_key(key: KeyCode, search_mode: SearchMode) -> (r: Option<LogsAction>)
    ensures
        r == logs_action_for(key, search_mode),
{
    match search_mode {
        SearchMode::Editing => match key {
            KeyCode::Esc | KeyCode::Enter => Some(LogsAction::ExitSearch),
            KeyCode::Backspace => Some(LogsAction::SearchBackspace),
            KeyCode::Char(c) => Some(LogsAction::SearchChar(c)),
            _ => None,
        },
        SearchMode::Normal => match key {
            KeyCode::Char('/') => Some(LogsAction::EnterSearch),
            KeyCode::Char('c') => Some(LogsAction::ClearSearch),
            KeyCode::Tab | KeyCode::Right | KeyCode::Char(']') => Some(
                LogsAction::NextDevice,
            ),
            KeyCode::BackTab | KeyCode::Left | KeyCode::Char('h') | KeyCode::Char('[') => Some(
                LogsAction::PrevDevice,
            ),
            KeyCode::Char(d) => {
                if '1' <= d && d <= '9' {
                    Some(LogsAction::SelectDeviceIndex((d as u32 - '1' as u32) as usize))
                } else if d == 'a' {
                    Some(LogsAction::ToggleAutoScroll)
                } else if d == 'k' || d == 's' {
                    Some(LogsAction::ToggleStream)
                } else if d == 'x' || d == 'l' {
                    Some(LogsAction::ClearScreen)
                } else if d == 'g' {
                    Some(LogsAction::ScrollTop)
                } else if d == 'G' {
                    Some(LogsAction::ScrollBottom)
                } else {
                    None
                }
            },
            KeyCode::Up => Some(LogsAction::ScrollUp(1)),
            KeyCode::Down => Some(LogsAction::ScrollDown(1)),
            KeyCode::PageUp => Some(LogsAction::ScrollUp(PAGE_LINES)),
            KeyCode::PageDown => Some(LogsAction::ScrollDown(PAGE_LINES)),
            KeyCode::Home => Some(LogsAction::ScrollTop),
            KeyCode::End => Some(LogsAction::ScrollBottom),
            _ => None,
        },
    }
}

/// Outside work that a logs tab action asks for.
#[derive(Debug, Clone, PartialEq, Eq)]
pub enum LogsCommand {
    /// Start the device's logcat stream, or stop it when it runs.
    ToggleStream { serial: String },
}

/// The query without its last character (unchanged when empty).
pub open spec fn query_backspaced(q: Seq<char>) -> Seq<char> {
    if q.len() > 0 {
        q.drop_last()
    } else {
        q
    }
}

pub open spec fn with_search_mode(v: AppView, m: SearchMode) -> AppView {
    AppView { log: LogView { search_mode: m, ..v.log }, ..v }
}

/// The state after a logs tab action, with the serial whose stream is to be
/// toggled, if any.
pub open spec fn logs_outcome(v: AppView, action: LogsAction) -> (AppView, Option<Seq<char>>) {
    let s = v.active_session();
    match action {
        LogsAction::EnterSearch => (with_search_mode(v, SearchMode::Editing), None),
        LogsAction::ExitSearch => (with_search_mode(v, SearchMode::Normal), None),
        LogsAction::SearchChar(c) => (
            v.with_active_session(session_with_query(s, s.search_query.push(c))),
            None,
        ),
        LogsAction::SearchBackspace => (
            v.with_active_session(session_with_query(s, query_backspaced(s.search_query))),
            None,
        ),
        LogsAction::ClearSearch => (v.with_active_session(session_with_query(s, seq![])), None),
        LogsAction::NextDevice => (
            if v.running_devices.len() == 0 {
                v
            } else {
                v.switch_log_device(
                    (v.active_device_position() + 1) % (v.running_devices.len() as int),
                )
            },
            None,
        ),
        LogsAction::PrevDevice => (
            if v.running_devices.len() == 0 {
                v
            } else if v.active_device_position() == 0 {
                v.switch_log_device(v.running_devices.len() - 1)
            } else {
                v.switch_log_device(v.active_device_position() - 1)
            },
            None,
        ),
        LogsAction::SelectDeviceIndex(idx) => (
            if idx < v.running_devices.len() {
                v.switch_log_device(idx as int)
            } else {
                v
            },
            None,
        ),
        LogsAction::ToggleAutoScroll => (v.with_active_session(session_auto_scroll_toggled(s)), None),
        LogsAction::ToggleStream => (
            v,
            if v.active_index() >= 0 {
                Some(s.serial)
            } else {
                None
            },
        ),
        LogsAction::ClearScreen => (v.with_active_session(session_cleared(s)), None),
        LogsAction::ScrollUp(n) => (v.with_active_session(session_scrolled_up(s, n as int)), None),
        LogsAction::ScrollDown(n) => (
            v.with_active_session(session_scrolled_down(s, n as int)),
            None,
        ),
        LogsAction::ScrollTop => (v.with_active_session(session_at_top(s)), None),
        LogsAction::ScrollBottom => (v.with_active_session(session_at_bottom(s)), None),
    }
}

/// Applies a logs tab action to the state and returns the outside work it
/// asks for.
pub fn execute_action(action: LogsAction, state: &mut AppState) -> (cmd: Option<LogsCommand>)
    requires
        old(state)@.wf(),
    ensures
        final(state)@ == logs_outcome(old(state)@, action).0,
        (match cmd {
            Some(LogsCommand::ToggleStream { serial }) => Some(serial@),
            None => None,
        }) == logs_outcome(old(state)@, action).1,
        final(state)@.wf(),
{
    match action {
        LogsAction::EnterSearch => {
            state.log_state.search_mode = SearchMode::Editing;
            None
        },
        LogsAction::ExitSearch => {
            state.log_state.search_mode = SearchMode::Normal;
            None
        },
        LogsAction::SearchChar(c) => {
            let query = match state.active_log_session() {
                Some(session) => {
                    let mut q = session.search_query.clone();
                    push_char(&mut q, c);
                    Some(q)
                },
                None => None,
            };
            match query {
                Some(q) => state.update_search_query(q),
                None => {},
            }
            None
        },
        LogsAction::SearchBackspace => {
            let query = match state.active_log_session() {
                Some(session) => {
                    let chars = to_chars(session.search_query.as_str());
                    let n = chars.len();
                    if n > 0 {
                        let kept = slice_chars(chars.as_slice(), 0, n - 1);
                        assert(kept@ =~= session.search_query@.drop_last());
                        Some(string_from_chars(kept.as_slice()))
                    } else {
                        Some(session.search_query.clone())
                    }
                },
                None => None,
            };
            match query {
                Some(q) => state.update_search_query(q),
                None => {},
            }
            None
        },
        LogsAction::ClearSearch => {
            if state.active_log_session().is_some() {
                state.update_search_query(String::new());
            }
            None
        },
        LogsAction::NextDevice => {
            state.select_next_log_device();
            None
        },
        LogsAction::PrevDevice => {
            state.select_prev_log_device();
            None
        },
        LogsAction::SelectDeviceIndex(idx) => {
            state.select_log_device_by_index(idx);
            None
        },
        LogsAction::ToggleAutoScroll => {
            state.toggle_logs_auto_scroll();
            None
        },
        LogsAction::ToggleStream => {
            match state.active_log_session() {
                Some(session) => Some(LogsCommand::ToggleStream { serial: session.serial.clone() }),
                None => None,
            }
        },
        LogsAction::ClearScreen => {
            state.clear_active_logs();
            None
        },
        LogsAction::ScrollUp(count) => {
            state.scroll_logs_up(count);
            None
        },
        LogsAction::ScrollDown(count) => {
            state.scroll_logs_down(count);
            None
        },
        LogsAction::ScrollTop => {
            state.scroll_logs_top();
            None
        },
        LogsAction::ScrollBottom => {
            state.scroll_logs_bottom();
            None
        },
    }
}

} // verus!
