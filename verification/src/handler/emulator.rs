//! Keys and actions of the emulator & devices tab.
use vstd::prelude::*;

use crate::app::{AppState, AppView};
use crate::events::KeyCode;
use crate::model::{PaneFocus, TargetType};

verus! {

#[derive(Debug, Clone, Copy, PartialEq, Eq, Structural)]
pub enum EmuAction {
    TogglePane,
    SelectNext,
    SelectPrev,
    RefreshDevices,
    RunSelectedAvd,
    LaunchScrcpy,
    StopEmulator,
    BuildAndDeploy,
}

/// The action that a key triggers in the emulator tab with the given pane
/// focused.
pub open spec fn emu_action_for(key: KeyCode, pane: PaneFocus) -> Option<EmuAction> {
    match key {
        KeyCode::Tab | KeyCode::Left | KeyCode::Right => Some(EmuAction::TogglePane),
        KeyCode::Up => Some(EmuAction::SelectPrev),
        KeyCode::Down => Some(EmuAction::SelectNext),
        KeyCode::Char('R') => Some(EmuAction::RefreshDevices),
        KeyCode::Enter | KeyCode::Char('r') => if pane == PaneFocus::InstalledAvds {
            Some(EmuAction::RunSelectedAvd)
        } else {
            None
        },
        KeyCode::Char('s') => if pane == PaneFocus::RunningTargets {
            Some(EmuAction::LaunchScrcpy)
        } else {
            None
        },
        KeyCode::Char('k') => if pane == PaneFocus::RunningTargets {
            Some(EmuAction::StopEmulator)
        } else {
            None
        },
        KeyCode::Char('b') => if pane == PaneFocus::RunningTargets {
            Some(EmuAction::BuildAndDeploy)
        } else {
            None
        },
        _ => None,
    }
}

/// Maps a key of the emulator tab to its action.
pub fn map_key(key: KeyCode, pane: PaneFocus) -> (r: Option<EmuAction>)
    ensures
        r == emu_action_for(key, pane),
{
    match key {
        KeyCode::Tab | KeyCode::Left | KeyCode::Right => Some(EmuAction::TogglePane),
        KeyCode::Up => Some(EmuAction::SelectPrev),
        KeyCode::Down => Some(EmuAction::SelectNext),
        KeyCode::Char('R') => Some(EmuAction::RefreshDevices),
        KeyCode::Enter | KeyCode::Char('r') => match pane {
            PaneFocus::InstalledAvds => Some(EmuAction::RunSelectedAvd),
            PaneFocus::RunningTargets => None,
        },
        KeyCode::Char('s') => match pane {
            PaneFocus::RunningTargets => Some(EmuAction::LaunchScrcpy),
            PaneFocus::InstalledAvds => None,
        },
        KeyCode::Char('k') => match pane {
            PaneFocus::RunningTargets => Some(EmuAction::StopEmulator),
            PaneFocus::InstalledAvds => None,
        },
        KeyCode::Char('b') => match pane {
            PaneFocus::RunningTargets => Some(EmuAction::BuildAndDeploy),
            PaneFocus::InstalledAvds => None,
        },
        _ => None,
    }
}

/// Outside work that an emulator tab action asks for.
#[derive(Debug, Clone, PartialEq, Eq)]
pub enum EmuCommand {
    /// List the virtual and connected devices again.
    RefreshDevices,
    /// Start the named virtual device headless.
    LaunchEmulator { avd_name: String },
    /// Open a display window for the emulator.
    LaunchScrcpy { serial: String },
    /// Shut the emulator down.
    StopEmulator { serial: String },
    /// Build the debug APK, install it on the target and start it.
    BuildAndDeploy { serial: String },
}

/// The state after an emulator tab action, together with the outside work it
/// asks for (the serial or name it concerns).
pub open spec fn emu_outcome(v: AppView, action: EmuAction) -> (AppView, Option<(EmuAction, Seq<char>)>) {
    let avd = if v.avd_selected_index < v.installed_avds.len() {
        Some(v.installed_avds[v.avd_selected_index as int])
    } else {
        None
    };
    let dev = if v.device_selected_index < v.running_devices.len() {
        Some(v.running_devices[v.device_selected_index as int])
    } else {
        None
    };
    match action {
        EmuAction::TogglePane => (v.focus_toggled(), None),
        EmuAction::SelectNext => (v.selection_next(), None),
        EmuAction::SelectPrev => (v.selection_prev(), None),
        EmuAction::RefreshDevices => (
            v.with_status_line("Refreshing devices..."@),
            Some((EmuAction::RefreshDevices, seq![])),
        ),
        EmuAction::RunSelectedAvd => match avd {
            Some(a) => (
                v.with_status_line(
                    "Starting headless emulator '"@ + a.name@ + "' with host GPU..."@,
                ),
                Some((EmuAction::RunSelectedAvd, a.name@)),
            ),
            None => (v.with_status_line("No AVD selected to run."@), None),
        },
        EmuAction::LaunchScrcpy => match dev {
            Some(d) => if d.target_type == TargetType::Emulator {
                (
                    v.with_status_line(
                        "Opening scrcpy display window for emulator '"@ + d.serial@ + "'..."@,
                    ),
                    Some((EmuAction::LaunchScrcpy, d.serial@)),
                )
            } else {
                (
                    v.with_status_line(
                        "Note: Scrcpy is disabled for physical devices (operate device by hand)."@,
                    ),
                    None,
                )
            },
            None => (v.with_status_line("No target device selected for scrcpy."@), None),
        },
        EmuAction::StopEmulator => match dev {
            Some(d) => if d.target_type == TargetType::Emulator {
                (
                    v.with_status_line("Stopping emulator '"@ + d.serial@ + "'..."@),
                    Some((EmuAction::StopEmulator, d.serial@)),
                )
            } else {
                (v.with_status_line("Cannot stop physical USB device via emu kill."@), None)
            },
            None => (v.with_status_line("No target selected to stop."@), None),
        },
        EmuAction::BuildAndDeploy => match dev {
            Some(d) => (v, Some((EmuAction::BuildAndDeploy, d.serial@))),
            None => (v.with_status_line("No running target selected for build & deploy."@), None),
        },
    }
}

/// What a command asks for, as the action it belongs to and its argument.
pub open spec fn emu_command_view(c: EmuCommand) -> (EmuAction, Seq<char>) {
    match c {
        EmuCommand::RefreshDevices => (EmuAction::RefreshDevices, seq![]),
        EmuCommand::LaunchEmulator { avd_name } => (EmuAction::RunSelectedAvd, avd_name@),
        EmuCommand::LaunchScrcpy { serial } => (EmuAction::LaunchScrcpy, serial@),
        EmuCommand::StopEmulator { serial } => (EmuAction::StopEmulator, serial@),
        EmuCommand::BuildAndDeploy { serial } => (EmuAction::BuildAndDeploy, serial@),
    }
}

/// Applies an emulator tab action to the state and returns the outside work
/// it asks for.
pub fn execute_action(action: EmuAction, state: &mut AppState) -> (cmd: Option<EmuCommand>)
    requires
        old(state)@.wf(),
    ensures
        final(state)@ == emu_outcome(old(state)@, action).0,
        (match cmd {
            Some(c) => Some(emu_command_view(c)),
            None => None,
        }) == emu_outcome(old(state)@, action).1,
        final(state)@.wf(),
{
    match action {
        EmuAction::TogglePane => {
            state.toggle_focus();
            None
        },
        EmuAction::SelectNext => {
            state.select_next();
            None
        },
        EmuAction::SelectPrev => {
            state.select_prev();
            None
        },
        EmuAction::RefreshDevices => {
            state.add_log("Refreshing devices...".to_owned());
            Some(EmuCommand::RefreshDevices)
        },
        EmuAction::RunSelectedAvd => {
            let name = match state.get_selected_avd() {
                Some(avd) => Some(avd.name.clone()),
                None => None,
            };
            match name {
                Some(avd_name) => {
                    let msg = "Starting headless emulator '".to_owned().concat(
                        avd_name.as_str(),
                    ).concat("' with host GPU...");
                    state.add_log(msg);
                    Some(EmuCommand::LaunchEmulator { avd_name })
                },
                None => {
                    state.add_log("No AVD selected to run.".to_owned());
                    None
                },
            }
        },
        EmuAction::LaunchScrcpy => {
            let target = match state.get_selected_device() {
                Some(d) => Some((d.serial.clone(), d.target_type)),
                None => None,
            };
            match target {
                Some((serial, TargetType::Emulator)) => {
                    let msg = "Opening scrcpy display window for emulator '".to_owned().concat(
                        serial.as_str(),
                    ).concat("'...");
                    state.add_log(msg);
                    Some(EmuCommand::LaunchScrcpy { serial })
                },
                Some((_, TargetType::UsbPhone)) => {
                    state.add_log(
                        "Note: Scrcpy is disabled for physical devices (operate device by hand)."
                            .to_owned(),
                    );
                    None
                },
                None => {
                    state.add_log("No target device selected for scrcpy.".to_owned());
                    None
                },
            }
        },
        EmuAction::StopEmulator => {
            let target = match state.get_selected_device() {
                Some(d) => Some((d.serial.clone(), d.target_type)),
                None => None,
            };
            match target {
                Some((serial, TargetType::Emulator)) => {
                    let msg = "Stopping emulator '".to_owned().concat(serial.as_str()).concat(
                        "'...",
                    );
                    state.add_log(msg);
                    Some(EmuCommand::StopEmulator { serial })
                },
                Some((_, TargetType::UsbPhone)) => {
                    state.add_log("Cannot stop physical USB device via emu kill.".to_owned());
                    None
                },
                None => {
                    state.add_log("No target selected to stop.".to_owned());
                    None
                },
            }
        },
        EmuAction::BuildAndDeploy => {
            let serial = match state.get_selected_device() {
                Some(d) => Some(d.serial.clone()),
                None => None,
            };
            match serial {
                Some(serial) => Some(EmuCommand::BuildAndDeploy { serial }),
                None => {
                    state.add_log("No running target selected for build & deploy.".to_owned());
                    None
                },
            }
        },
    }
}

} // verus!
