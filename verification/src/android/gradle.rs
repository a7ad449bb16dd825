//! Decisions around running Gradle tasks.
use vstd::prelude::*;

use crate::events::{event_views, AppEvent, EventView};
use crate::text::{contains, has_substring, to_chars};

verus! {

/// `parts` joined with `sep` between them.
pub open spec fn joined(parts: Seq<Seq<char>>, sep: Seq<char>) -> Seq<char>
    decreases parts.len(),
{
    if parts.len() == 0 {
        seq![]
    } else if parts.len() == 1 {
        parts[0]
    } else {
        joined(parts.drop_last(), sep) + sep + parts.last()
    }
}

/// The line that echoes a Gradle invocation: `$ ./gradlew <args>`.
pub fn gradle_command_line(args: &Vec<String>) -> (s: String)
    ensures
        s@ == "$ ./gradlew "@ + joined(args@.map_values(|a: String| a@), " "@),
{
    let ghost parts = args@.map_values(|a: String| a@);
    let mut body = String::new();
    let n = args.len();
    let mut i: usize = 0;
    while i < n
        invariant
            i <= n,
            n == args@.len(),
            parts == args@.map_values(|a: String| a@),
            body@ == joined(parts.take(i as int), " "@),
        decreases n - i,
    {
        let ghost t = parts.take(i + 1);
        proof {
            assert(t.drop_last() =~= parts.take(i as int));
            assert(t.last() == args@[i as int]@);
        }
        if i > 0 {
            body.append(" ");
        } else {
            assert(t =~= seq![args@[0]@]);
            assert(body@ =~= Seq::<char>::empty());
        }
        body.append(args[i].as_str());
        proof {
            if i == 0 {
                assert(body@ =~= joined(t, " "@));
            }
        }
        i = i + 1;
    }
    assert(parts.take(n as int) =~= parts);
    "$ ./gradlew ".to_owned().concat(body.as_str())
}

/// Whether a finished task may have built an APK: one of its arguments
/// mentions `assemble`.
pub fn builds_apk(args: &Vec<String>) -> (b: bool)
    ensures
        b == exists|i: int| 0 <= i < args@.len() && has_substring(#[trigger] args@[i]@, "assemble"@),
{
    let pat = to_chars("assemble");
    let n = args.len();
    let mut i: usize = 0;
    while i < n
        invariant
            i <= n,
            n == args@.len(),
            pat@ == "assemble"@,
            forall|j: int| 0 <= j < i ==> !has_substring(#[trigger] args@[j]@, "assemble"@),
        decreases n - i,
    {
        let a = to_chars(args[i].as_str());
        if contains(a.as_slice(), pat.as_slice()) {
            return true;
        }
        i = i + 1;
    }
    false
}

// ---------------------------------------------------------------------------
// One run of a Gradle task
// ---------------------------------------------------------------------------

/// Where a Gradle run stands: what it waits for next.
#[derive(Debug, Clone, Copy, PartialEq, Eq, Structural)]
pub enum GradleRunPhase {
    /// Whether `./gradlew` exists is being checked.
    CheckingWrapper,
    /// The wrapper process is being started.
    Spawning,
    /// The process runs; its output is streamed meanwhile.
    Running,
    /// The task built an APK, which is being looked for.
    LocatingApk { exit_code: Option<i32>, elapsed_ms: u64 },
    /// Nothing more to do.
    Done,
}

/// What the outside work of a Gradle run reports back.
#[derive(Debug, Clone, PartialEq, Eq)]
pub enum GradleRunEvent {
    WrapperChecked { exists: bool },
    SpawnFailed { error: String, elapsed_ms: u64 },
    Spawned,
    Exited { success: bool, exit_code: Option<i32>, elapsed_ms: u64 },
    WaitFailed { error: String, elapsed_ms: u64 },
    /// The APK's path and the line that reports it (its size is given in
    /// megabytes with two decimals, which takes floating point), if found.
    ApkLocated { apk: Option<(String, String)> },
}

/// The outside work that a Gradle run asks for next.
#[derive(Debug, Clone, Copy, PartialEq, Eq, Structural)]
pub enum GradleRunAction {
    CheckWrapper,
    /// Start `./gradlew` with the run's arguments.
    Spawn,
    /// Stream the output and wait for the process to end.
    AwaitExit,
    /// Look for the debug APK among the build outputs.
    LocateApk,
    Finish,
}

/// A run of `./gradlew` with some arguments, driven by the events of the
/// outside work: it says which events to send to the application and what to
/// do next.
pub struct GradleRun {
    pub args: Vec<String>,
    pub display_name: String,
    pub phase: GradleRunPhase,
}

/// What a run waits for in a phase.
pub open spec fn gradle_awaited(phase: GradleRunPhase) -> GradleRunAction {
    match phase {
        GradleRunPhase::CheckingWrapper => GradleRunAction::CheckWrapper,
        GradleRunPhase::Spawning => GradleRunAction::Spawn,
        GradleRunPhase::Running => GradleRunAction::AwaitExit,
        GradleRunPhase::LocatingApk { .. } => GradleRunAction::LocateApk,
        GradleRunPhase::Done => GradleRunAction::Finish,
    }
}

pub open spec fn finished_view(
    name: Seq<char>,
    success: bool,
    exit_code: Option<i32>,
    duration_ms: u64,
    apk_path: Option<Seq<char>>,
) -> EventView {
    EventView::GradleTaskFinished { task: name, success, exit_code, duration_ms, apk_path }
}

/// One step of a run: the next phase, the events for the application (in
/// order) and the next outside work. An event that the phase does not wait
/// for changes nothing.
pub open spec fn gradle_run_step(
    args: Seq<Seq<char>>,
    name: Seq<char>,
    phase: GradleRunPhase,
    event: GradleRunEvent,
) -> (GradleRunPhase, Seq<EventView>, GradleRunAction) {
    match (phase, event) {
        (GradleRunPhase::CheckingWrapper, GradleRunEvent::WrapperChecked { exists }) => if exists {
            (
                GradleRunPhase::Spawning,
                seq![
                    EventView::GradleTaskStarted(name),
                    EventView::GradleLogLine("$ ./gradlew "@ + joined(args, " "@)),
                ],
                GradleRunAction::Spawn,
            )
        } else {
            (
                GradleRunPhase::Done,
                seq![
                    EventView::GradleTaskStarted(name),
                    EventView::GradleLogLine("Error: No './gradlew' found in current directory."@),
                    EventView::GradleLogLine(
                        "Please run 'ast' from the root of an Android/Gradle project containing './gradlew'."@,
                    ),
                    finished_view(name, false, Some(1i32), 0, None),
                ],
                GradleRunAction::Finish,
            )
        },
        (GradleRunPhase::Spawning, GradleRunEvent::SpawnFailed { error, elapsed_ms }) => (
            GradleRunPhase::Done,
            seq![
                EventView::GradleLogLine("Failed to spawn './gradlew': "@ + error@),
                finished_view(name, false, None, elapsed_ms, None),
            ],
            GradleRunAction::Finish,
        ),
        (GradleRunPhase::Spawning, GradleRunEvent::Spawned) => (
            GradleRunPhase::Running,
            seq![],
            GradleRunAction::AwaitExit,
        ),
        (GradleRunPhase::Running, GradleRunEvent::Exited { success, exit_code, elapsed_ms }) =>
            if success && exists|i: int|
            0 <= i < args.len() && has_substring(#[trigger] args[i], "assemble"@) {
            (GradleRunPhase::LocatingApk { exit_code, elapsed_ms }, seq![], GradleRunAction::LocateApk)
        } else {
            (
                GradleRunPhase::Done,
                seq![finished_view(name, success, exit_code, elapsed_ms, None)],
                GradleRunAction::Finish,
            )
        },
        (GradleRunPhase::Running, GradleRunEvent::WaitFailed { error, elapsed_ms }) => (
            GradleRunPhase::Done,
            seq![
                EventView::GradleLogLine("Gradle process error: "@ + error@),
                finished_view(name, false, None, elapsed_ms, None),
            ],
            GradleRunAction::Finish,
        ),
        (
            GradleRunPhase::LocatingApk { exit_code, elapsed_ms },
            GradleRunEvent::ApkLocated { apk },
        ) => match apk {
            Some((path, line)) => (
                GradleRunPhase::Done,
                seq![
                    EventView::GradleLogLine(line@),
                    finished_view(name, true, exit_code, elapsed_ms, Some(path@)),
                ],
                GradleRunAction::Finish,
            ),
            None => (
                GradleRunPhase::Done,
                seq![finished_view(name, true, exit_code, elapsed_ms, None)],
                GradleRunAction::Finish,
            ),
        },
        _ => (phase, seq![], gradle_awaited(phase)),
    }
}

fn finished(
    name: &String,
    success: bool,
    exit_code: Option<i32>,
    duration_ms: u64,
    apk_path: Option<String>,
) -> (e: AppEvent)
    ensures
        e@ == finished_view(name@, success, exit_code, duration_ms, crate::model::opt_view(apk_path)),
{
    AppEvent::GradleTaskFinished { task: name.clone(), success, exit_code, duration_ms, apk_path }
}

impl GradleRun {
    pub open spec fn arg_views(&self) -> Seq<Seq<char>> {
        self.args@.map_values(|a: String| a@)
    }

    /// A run that first checks for the wrapper.
    pub fn new(args: Vec<String>, display_name: String) -> (r: Self)
        ensures
            r.args@ == args@,
            r.display_name@ == display_name@,
            r.phase == GradleRunPhase::CheckingWrapper,
    {
        GradleRun { args, display_name, phase: GradleRunPhase::CheckingWrapper }
    }

    /// Takes in what the last outside work reported; returns the events to
    /// send to the application, in order, and the next outside work.
    pub fn step(&mut self, event: GradleRunEvent) -> (r: (Vec<AppEvent>, GradleRunAction))
        ensures
            final(self).args@ == old(self).args@,
            final(self).display_name@ == old(self).display_name@,
            (final(self).phase, event_views(r.0@), r.1) == gradle_run_step(
                old(self).arg_views(),
                old(self).display_name@,
                old(self).phase,
                event,
            ),
    {
        let name = &self.display_name;
        let mut out: Vec<AppEvent> = Vec::new();
        let ghost args = self.arg_views();
        let ghost phase0 = self.phase;
        let action = match (self.phase, event) {
            (GradleRunPhase::CheckingWrapper, GradleRunEvent::WrapperChecked { exists }) => {
                out.push(AppEvent::GradleTaskStarted(name.clone()));
                if exists {
                    out.push(AppEvent::GradleLogLine(gradle_command_line(&self.args)));
                    self.phase = GradleRunPhase::Spawning;
                    GradleRunAction::Spawn
                } else {
                    out.push(
                        AppEvent::GradleLogLine(
                            "Error: No './gradlew' found in current directory.".to_owned(),
                        ),
                    );
                    out.push(
                        AppEvent::GradleLogLine(
                            "Please run 'ast' from the root of an Android/Gradle project containing './gradlew'.".to_owned(),
                        ),
                    );
                    out.push(finished(name, false, Some(1), 0, None));
                    self.phase = GradleRunPhase::Done;
                    GradleRunAction::Finish
                }
            },
            (GradleRunPhase::Spawning, GradleRunEvent::SpawnFailed { error, elapsed_ms }) => {
                out.push(
                    AppEvent::GradleLogLine(
                        "Failed to spawn './gradlew': ".to_owned().concat(error.as_str()),
                    ),
                );
                out.push(finished(name, false, None, elapsed_ms, None));
                self.phase = GradleRunPhase::Done;
                GradleRunAction::Finish
            },
            (GradleRunPhase::Spawning, GradleRunEvent::Spawned) => {
                self.phase = GradleRunPhase::Running;
                GradleRunAction::AwaitExit
            },
            (GradleRunPhase::Running, GradleRunEvent::Exited { success, exit_code, elapsed_ms }) => {
                let b = builds_apk(&self.args);
                proof {
                    if b {
                        let i = choose|i: int|
                            0 <= i < self.args@.len() && has_substring(
                                #[trigger] self.args@[i]@,
                                "assemble"@,
                            );
                        assert(args[i] == self.args@[i]@);
                    } else {
                        assert forall|i: int| 0 <= i < args.len() implies !has_substring(
                            #[trigger] args[i],
                            "assemble"@,
                        ) by {
                            assert(args[i] == self.args@[i]@);
                        }
                    }
                }
                if success && b {
                    self.phase = GradleRunPhase::LocatingApk { exit_code, elapsed_ms };
                    GradleRunAction::LocateApk
                } else {
                    out.push(finished(name, success, exit_code, elapsed_ms, None));
                    self.phase = GradleRunPhase::Done;
                    GradleRunAction::Finish
                }
            },
            (GradleRunPhase::Running, GradleRunEvent::WaitFailed { error, elapsed_ms }) => {
                out.push(
                    AppEvent::GradleLogLine("Gradle process error: ".to_owned().concat(error.as_str())),
                );
                out.push(finished(name, false, None, elapsed_ms, None));
                self.phase = GradleRunPhase::Done;
                GradleRunAction::Finish
            },
            (
                GradleRunPhase::LocatingApk { exit_code, elapsed_ms },
                GradleRunEvent::ApkLocated { apk },
            ) => {
                match apk {
                    Some((path, line)) => {
                        out.push(AppEvent::GradleLogLine(line));
                        out.push(finished(name, true, exit_code, elapsed_ms, Some(path)));
                    },
                    None => {
                        out.push(finished(name, true, exit_code, elapsed_ms, None));
                    },
                }
                self.phase = GradleRunPhase::Done;
                GradleRunAction::Finish
            },
            (p, _) => match p {
                GradleRunPhase::CheckingWrapper => GradleRunAction::CheckWrapper,
                GradleRunPhase::Spawning => GradleRunAction::Spawn,
                GradleRunPhase::Running => GradleRunAction::AwaitExit,
                GradleRunPhase::LocatingApk { .. } => GradleRunAction::LocateApk,
                GradleRunPhase::Done => GradleRunAction::Finish,
            },
        };
        proof {
            let expect = gradle_run_step(args, self.display_name@, phase0, event);
            assert(event_views(out@) =~= expect.1);
        }
        (out, action)
    }
}

} // verus!
