//! Keys and actions of the build & Gradle tab.
use vstd::prelude::*;

use crate::app::{AppState, AppView};
use crate::events::KeyCode;
use crate::handler::logs::PAGE_LINES;
use crate::model::TaskStatus;

verus! {

#[derive(Debug, Clone, Copy, PartialEq, Eq, Structural)]
pub enum BuildAction {
    Sync,
    AssembleDebug,
    Clean,
    Cancel,
    ClearLog,
    ToggleAutoScroll,
    ScrollUp,
    ScrollDown,
    ScrollPageUp,
    ScrollPageDown,
}

/// The action that a key triggers in the build tab.
pub open spec fn build_action_for(key: KeyCode) -> Option<BuildAction> {
    match key {
        KeyCode::Char('s') => Some(BuildAction::Sync),
        KeyCode::Char('b') => Some(BuildAction::AssembleDebug),
        KeyCode::Char('c') => Some(BuildAction::Clean),
        KeyCode::Char('x') => Some(BuildAction::Cancel),
        KeyCode::Char('l') => Some(BuildAction::ClearLog),
        KeyCode::Char('a') => Some(BuildAction::ToggleAutoScroll),
        KeyCode::Up => Some(BuildAction::ScrollUp),
        KeyCode::Down => Some(BuildAction::ScrollDown),
        KeyCode::PageUp => Some(BuildAction::ScrollPageUp),
        KeyCode::PageDown => Some(BuildAction::ScrollPageDown),
        _ => None,
    }
}

/// Maps a key of the build tab to its action.
pub fn map_key(key: KeyCode) -> (r: Option<BuildAction>)
    ensures
        r == build_action_for(key),
{
    match key {
        KeyCode::Char('s') => Some(BuildAction::Sync),
        KeyCode::Char('b') => Some(BuildAction::AssembleDebug),
        KeyCode::Char('c') => Some(BuildAction::Clean),
        KeyCode::Char('x') => Some(BuildAction::Cancel),
        KeyCode::Char('l') => Some(BuildAction::ClearLog),
        KeyCode::Char('a') => Some(BuildAction::ToggleAutoScroll),
        KeyCode::Up => Some(BuildAction::ScrollUp),
        KeyCode::Down => Some(BuildAction::ScrollDown),
        KeyCode::PageUp => Some(BuildAction::ScrollPageUp),
        KeyCode::PageDown => Some(BuildAction::ScrollPageDown),
        _ => None,
    }
}

/// Outside work that a build tab action asks for.
#[derive(Debug, Clone, PartialEq, Eq)]
pub enum BuildCommand {
    /// Run `./gradlew` with the arguments, reporting under `display_name`.
    RunGradle { args: Vec<String>, display_name: String },
    /// Stop the running Gradle process.
    CancelGradle,
}

/// The Gradle arguments and the display name of the task an action starts.
pub open spec fn gradle_task_of(action: BuildAction) -> (Seq<Seq<char>>, Seq<char>) {
    match action {
        BuildAction::Sync => (seq!["--refresh-dependencies"@, "help"@], "Sync Dependencies"@),
        BuildAction::AssembleDebug => (seq!["assembleDebug"@, "--console=plain"@], "Assemble Debug"@),
        _ => (seq!["clean"@, "--console=plain"@], "Clean Project"@),
    }
}

pub open spec fn is_running(status: TaskStatus) -> bool {
    status matches TaskStatus::Running { .. }
}

/// The line shown when a task is asked for while another runs.
pub open spec fn busy_line() -> Seq<char> {
    "A Gradle task is already running. Press [x] to cancel before starting a new one."@
}

/// The state after a build tab action, with the outside work it asks for:
/// `Some(Some(task))` to start a task, `Some(None)` to cancel the running one.
pub open spec fn build_outcome(v: AppView, action: BuildAction) -> (
    AppView,
    Option<Option<(Seq<Seq<char>>, Seq<char>)>>,
) {
    let running = is_running(v.gradle.status);
    match action {
        BuildAction::Sync | BuildAction::AssembleDebug | BuildAction::Clean => if running {
            (v.gradle_line_appended(busy_line()), None)
        } else {
            (v, Some(Some(gradle_task_of(action))))
        },
        BuildAction::Cancel => if running {
            (v, Some(None))
        } else {
            (v.gradle_line_appended("No Gradle task is currently running."@), None)
        },
        BuildAction::ClearLog => (v.gradle_cleared(), None),
        BuildAction::ToggleAutoScroll => (v.gradle_auto_scroll_toggled(), None),
        BuildAction::ScrollUp => (v.gradle_scrolled_up(1), None),
        BuildAction::ScrollDown => (v.gradle_scrolled_down(1), None),
        BuildAction::ScrollPageUp => (v.gradle_scrolled_up(PAGE_LINES as int), None),
        BuildAction::ScrollPageDown => (v.gradle_scrolled_down(PAGE_LINES as int), None),
    }
}

pub open spec fn build_command_view(c: BuildCommand) -> Option<(Seq<Seq<char>>, Seq<char>)> {
    match c {
        BuildCommand::RunGradle { args, display_name } => Some(
            (args@.map_values(|a: String| a@), display_name@),
        ),
        BuildCommand::CancelGradle => None,
    }
}

fn gradle_task(first: &str, second: &str, display_name: &str) -> (c: BuildCommand)
    ensures
        build_command_view(c) == Some((seq![first@, second@], display_name@)),
{
    let mut args: Vec<String> = Vec::new();
    args.push(first.to_owned());
    args.push(second.to_owned());
    assert(args@.map_values(|a: String| a@) =~= seq![first@, second@]);
    BuildCommand::RunGradle { args, display_name: display_name.to_owned() }
}

/// Applies a build tab action to the state and returns the outside work it
/// asks for.
pub fn execute_action(action: BuildAction, state: &mut AppState) -> (cmd: Option<BuildCommand>)
    requires
        old(state)@.wf(),
    ensures
        final(state)@ == build_outcome(old(state)@, action).0,
        (match cmd {
            Some(c) => Some(build_command_view(c)),
            None => None,
        }) == build_outcome(old(state)@, action).1,
        final(state)@.wf(),
{
    let running = match state.gradle_state.status {
        TaskStatus::Running { .. } => true,
        _ => false,
    };
    match action {
        BuildAction::Sync | BuildAction::AssembleDebug | BuildAction::Clean => {
            if running {
                state.append_gradle_line(
                    "A Gradle task is already running. Press [x] to cancel before starting a new one."
                        .to_owned(),
                );
                return None;
            }
            match action {
                BuildAction::Sync => Some(gradle_task("--refresh-dependencies", "help", "Sync Dependencies")),
                BuildAction::AssembleDebug => Some(gradle_task("assembleDebug", "--console=plain", "Assemble Debug")),
                _ => Some(gradle_task("clean", "--console=plain", "Clean Project")),
            }
        },
        BuildAction::Cancel => {
            if running {
                Some(BuildCommand::CancelGradle)
            } else {
                state.append_gradle_line("No Gradle task is currently running.".to_owned());
                None
            }
        },
        BuildAction::ClearLog => {
            state.clear_gradle_output();
            None
        },
        BuildAction::ToggleAutoScroll => {
            state.toggle_gradle_auto_scroll();
            None
        },
        BuildAction::ScrollUp => {
            state.scroll_gradle_up(1);
            None
        },
        BuildAction::ScrollDown => {
            state.scroll_gradle_down(1);
            None
        },
        BuildAction::ScrollPageUp => {
            state.scroll_gradle_up(PAGE_LINES);
            None
        },
        BuildAction::ScrollPageDown => {
            state.scroll_gradle_down(PAGE_LINES);
            None
        },
    }
}

/// Reports the outcome of a cancellation request in the Gradle output.
pub fn report_cancel(state: &mut AppState, cancelled: bool)
    requires
        old(state)@.wf(),
    ensures
        final(state)@ == old(state)@.gradle_line_appended(
            if cancelled {
                ">>> Cancellation signal sent to running Gradle task..."@
            } else {
                "No active task could be cancelled."@
            },
        ),
        final(state)@.wf(),
{
    if cancelled {
        state.append_gradle_line(">>> Cancellation signal sent to running Gradle task...".to_owned());
    } else {
        state.append_gradle_line("No active task could be cancelled.".to_owned());
    }
}

} // verus!
