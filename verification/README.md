# ast — Android Studio TUI

A keyboard-driven terminal interface for Android development: it lists AVDs and
connected devices, starts emulators and `scrcpy`, runs Gradle tasks, builds,
installs and starts the debug APK, and streams each device's logcat into a
searchable, persistent view.

The decisions of the program are a library verified with Verus:

- `src/app.rs` — the application state (devices, selections, activity log,
  Gradle output, one logcat session per device) with its mathematical view
  `AppView`, its well-formedness, and every operation on it.
- `src/model.rs` — devices, tasks, log sessions and the logcat filter
  (`package:<name>` with process-id matching, or plain text).
- `src/handler/` — keys and actions of the emulator, build and logs tabs.
- `src/control.rs` — what a key press or a background event does to the
  state and which outside work it asks for.
- `src/android/` — parsing of `emulator`, `adb` and `dumpsys` output, package
  detection in build scripts and manifests, log file names, the registry of
  running logcat streams, and the state machines that drive a Gradle run, a
  build-and-deploy and an app launch.
- `src/ui.rs` — line colours and the visible window of scrolled views.
- `src/laws.rs` — properties across operations (round trips, bounds,
  idempotence, that runs report their end exactly once).

`app/` is the program around the library: argument parsing, the terminal,
processes, files and timers.
