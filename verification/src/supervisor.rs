//! The process supervisor's state machine. One supervisor owns one external
//! process invocation: it resolves the tool, fetches the manifest, persists
//! it, spawns the process, and awaits it under a bounded timeout. Every
//! decision is made here, as a pure step function from state and event to
//! next state and action; the surrounding process performs each action (the
//! HTTP fetch, the file write, the spawn, the wait) and feeds the result
//! back as the next event.

use vstd::prelude::*;

use crate::task::{TaskFailure, TaskOutcome};

verus! {

/// Wall-clock bound, in seconds, on the running state of one supervised
/// process; fetch and spawn are not subject to it. Payloads are large, so
/// the bound is long.
pub const RUN_TIMEOUT_SECS: u64 = 1800;

/// What the manifest fetch came back with.
#[derive(Clone, Copy, PartialEq, Eq, Structural, Debug)]
pub enum FetchOutcome {
    /// The transport itself failed; no HTTP status was received.
    TransportError,
    /// A response arrived with this HTTP status.
    Response { http_status: u16 },
}

/// The supervisor's states. `Persisting` is the second half of the fetch
/// stage: the manifest bytes arrived and are being written to the per-task
/// file. `Finished` is the single terminal state, carrying the outcome.
#[derive(Clone, Copy, PartialEq, Eq, Structural, Debug)]
pub enum SupState {
    Resolving,
    Fetching,
    Persisting,
    Spawning,
    Running,
    Finished { outcome: TaskOutcome },
}

/// What the surrounding process reports back to the supervisor.
#[derive(Clone, Copy, PartialEq, Eq, Structural, Debug)]
pub enum SupEvent {
    /// Whether any candidate path held the external tool.
    ToolResolved { found: bool },
    /// The manifest fetch finished.
    FetchCompleted { outcome: FetchOutcome },
    /// Writing the manifest file finished.
    ManifestSaved { ok: bool },
    /// Starting the external process finished.
    SpawnCompleted { ok: bool },
    /// The process exited with this code before the timeout.
    ProcessExited { code: i64 },
    /// Waiting on the process itself errored.
    WaitFailed,
    /// The bounded wait elapsed with the process still running.
    TimedOut,
}

/// What the surrounding process must do next. For both finalizing actions,
/// the output-capture sinks are drained to completion before the task record
/// is finalized, so captured logs are complete and consistent with the
/// reported outcome.
#[derive(Clone, Copy, PartialEq, Eq, Structural, Debug)]
pub enum SupAction {
    /// Fetch the manifest resource.
    FetchManifest,
    /// Write the fetched bytes to the per-task manifest file.
    SaveManifest,
    /// Start the external process with the built argument list.
    SpawnProcess,
    /// Await the process under the bounded timeout.
    AwaitExit,
    /// Drain captures, then write the outcome to the task record.
    Finalize,
    /// Kill the still-running process first, then drain and finalize.
    KillAndFinalize,
    /// The event does not apply to the state; do nothing.
    Ignore,
}

/// Success is any 2xx status.
pub open spec fn http_success(status: u16) -> bool {
    200 <= status < 300
}

pub open spec fn fetch_failure(outcome: FetchOutcome) -> TaskFailure {
    match outcome {
        FetchOutcome::TransportError => TaskFailure::ManifestFetchFailed { http_status: 0 },
        FetchOutcome::Response { http_status } => TaskFailure::ManifestFetchFailed { http_status },
    }
}

/// The transition table. Every pair of state and event has exactly one next
/// state and one action; an event that does not apply to the state — in
/// particular any event arriving after `Finished` — changes nothing.
pub open spec fn sup_step(s: SupState, e: SupEvent) -> (SupState, SupAction) {
    match (s, e) {
        (SupState::Resolving, SupEvent::ToolResolved { found }) => {
            if found {
                (SupState::Fetching, SupAction::FetchManifest)
            } else {
                (
                    SupState::Finished {
                        outcome: TaskOutcome::Failed { failure: TaskFailure::ToolNotFound },
                    },
                    SupAction::Finalize,
                )
            }
        },
        (SupState::Fetching, SupEvent::FetchCompleted { outcome }) => {
            if outcome matches FetchOutcome::Response { http_status } && http_success(http_status) {
                (SupState::Persisting, SupAction::SaveManifest)
            } else {
                (
                    SupState::Finished {
                        outcome: TaskOutcome::Failed { failure: fetch_failure(outcome) },
                    },
                    SupAction::Finalize,
                )
            }
        },
        (SupState::Persisting, SupEvent::ManifestSaved { ok }) => {
            if ok {
                (SupState::Spawning, SupAction::SpawnProcess)
            } else {
                (
                    SupState::Finished {
                        outcome: TaskOutcome::Failed { failure: TaskFailure::FilesystemError },
                    },
                    SupAction::Finalize,
                )
            }
        },
        (SupState::Spawning, SupEvent::SpawnCompleted { ok }) => {
            if ok {
                (SupState::Running, SupAction::AwaitExit)
            } else {
                (
                    SupState::Finished {
                        outcome: TaskOutcome::Failed { failure: TaskFailure::SpawnFailed },
                    },
                    SupAction::Finalize,
                )
            }
        },
        (SupState::Running, SupEvent::ProcessExited { code }) => {
            if code == 0 {
                (SupState::Finished { outcome: TaskOutcome::Completed }, SupAction::Finalize)
            } else {
                (
                    SupState::Finished {
                        outcome: TaskOutcome::Failed { failure: TaskFailure::ProcessExit { code } },
                    },
                    SupAction::Finalize,
                )
            }
        },
        (SupState::Running, SupEvent::WaitFailed) => (
            SupState::Finished { outcome: TaskOutcome::Failed { failure: TaskFailure::WaitFailed } },
            SupAction::Finalize,
        ),
        (SupState::Running, SupEvent::TimedOut) => (
            SupState::Finished { outcome: TaskOutcome::Failed { failure: TaskFailure::Timeout } },
            SupAction::KillAndFinalize,
        ),
        _ => (s, SupAction::Ignore),
    }
}

/// One step of the supervisor, exactly as the transition table says.
pub fn step(s: SupState, e: SupEvent) -> (r: (SupState, SupAction))
    ensures
        r == sup_step(s, e),
{
    match (s, e) {
        (SupState::Resolving, SupEvent::ToolResolved { found }) => {
            if found {
                (SupState::Fetching, SupAction::FetchManifest)
            } else {
                (
                    SupState::Finished {
                        outcome: TaskOutcome::Failed { failure: TaskFailure::ToolNotFound },
                    },
                    SupAction::Finalize,
                )
            }
        },
        (SupState::Fetching, SupEvent::FetchCompleted { outcome }) => {
            match outcome {
                FetchOutcome::Response { http_status } if 200 <= http_status && http_status < 300 => (
                    SupState::Persisting,
                    SupAction::SaveManifest,
                ),
                _ => (
                    SupState::Finished {
                        outcome: TaskOutcome::Failed {
                            failure: match outcome {
                                FetchOutcome::TransportError => TaskFailure::ManifestFetchFailed {
                                    http_status: 0,
                                },
                                FetchOutcome::Response { http_status } => TaskFailure::ManifestFetchFailed {
                                    http_status,
                                },
                            },
                        },
                    },
                    SupAction::Finalize,
                ),
            }
        },
        (SupState::Persisting, SupEvent::ManifestSaved { ok }) => {
            if ok {
                (SupState::Spawning, SupAction::SpawnProcess)
            } else {
                (
                    SupState::Finished {
                        outcome: TaskOutcome::Failed { failure: TaskFailure::FilesystemError },
                    },
                    SupAction::Finalize,
                )
            }
        },
        (SupState::Spawning, SupEvent::SpawnCompleted { ok }) => {
            if ok {
                (SupState::Running, SupAction::AwaitExit)
            } else {
                (
                    SupState::Finished {
                        outcome: TaskOutcome::Failed { failure: TaskFailure::SpawnFailed },
                    },
                    SupAction::Finalize,
                )
            }
        },
        (SupState::Running, SupEvent::ProcessExited { code }) => {
            if code == 0 {
                (SupState::Finished { outcome: TaskOutcome::Completed }, SupAction::Finalize)
            } else {
                (
                    SupState::Finished {
                        outcome: TaskOutcome::Failed { failure: TaskFailure::ProcessExit { code } },
                    },
                    SupAction::Finalize,
                )
            }
        },
        (SupState::Running, SupEvent::WaitFailed) => (
            SupState::Finished { outcome: TaskOutcome::Failed { failure: TaskFailure::WaitFailed } },
            SupAction::Finalize,
        ),
        (SupState::Running, SupEvent::TimedOut) => (
            SupState::Finished { outcome: TaskOutcome::Failed { failure: TaskFailure::Timeout } },
            SupAction::KillAndFinalize,
        ),
        _ => (s, SupAction::Ignore),
    }
}

/// The state after feeding a whole sequence of events from `s`.
pub open spec fn run_states(s: SupState, events: Seq<SupEvent>) -> SupState
    decreases events.len(),
{
    if events.len() == 0 {
        s
    } else {
        run_states(sup_step(s, events[0]).0, events.subrange(1, events.len() as int))
    }
}

/// The actions emitted while feeding a whole sequence of events from `s`.
pub open spec fn run_actions(s: SupState, events: Seq<SupEvent>) -> Seq<SupAction>
    decreases events.len(),
{
    if events.len() == 0 {
        Seq::empty()
    } else {
        seq![sup_step(s, events[0]).1] + run_actions(
            sup_step(s, events[0]).0,
            events.subrange(1, events.len() as int),
        )
    }
}

/// The terminal state absorbs: once a supervisor has finished, no further
/// event moves it and no further action is emitted.
pub proof fn lemma_finished_absorbing(outcome: TaskOutcome, events: Seq<SupEvent>)
    ensures
        run_states(SupState::Finished { outcome }, events) == (SupState::Finished { outcome }),
        run_actions(SupState::Finished { outcome }, events).len() == events.len(),
        forall|i: int|
            0 <= i < events.len() ==> run_actions(SupState::Finished { outcome }, events)[i]
                == SupAction::Ignore,
    decreases events.len(),
{
    if events.len() > 0 {
        lemma_finished_absorbing(outcome, events.subrange(1, events.len() as int));
        assert(run_actions(SupState::Finished { outcome }, events)[0] == SupAction::Ignore);
    }
}

/// A run emits one action per event.
pub proof fn lemma_run_actions_len(s: SupState, events: Seq<SupEvent>)
    ensures
        run_actions(s, events).len() == events.len(),
    decreases events.len(),
{
    if events.len() > 0 {
        lemma_run_actions_len(sup_step(s, events[0]).0, events.subrange(1, events.len() as int));
    }
}

/// When no candidate path holds the tool, the whole run — whatever events
/// follow — ends failed with the tool-not-found cause, and no process is
/// ever spawned: the spawn action never appears, nor even a fetch.
pub proof fn lemma_tool_missing_run(events: Seq<SupEvent>)
    requires
        events.len() >= 1,
        events[0] == (SupEvent::ToolResolved { found: false }),
    ensures
        run_states(SupState::Resolving, events) == (SupState::Finished {
            outcome: TaskOutcome::Failed { failure: TaskFailure::ToolNotFound },
        }),
        forall|i: int|
            0 <= i < run_actions(SupState::Resolving, events).len() ==> run_actions(
                SupState::Resolving,
                events,
            )[i] != SupAction::SpawnProcess && run_actions(SupState::Resolving, events)[i]
                != SupAction::FetchManifest,
{
    let failed = TaskOutcome::Failed { failure: TaskFailure::ToolNotFound };
    let rest = events.subrange(1, events.len() as int);
    lemma_finished_absorbing(failed, rest);
    assert(run_actions(SupState::Resolving, events)[0] == SupAction::Finalize);
    assert forall|i: int|
        0 < i < run_actions(SupState::Resolving, events).len() implies run_actions(
        SupState::Resolving,
        events,
    )[i] == SupAction::Ignore by {
        assert(run_actions(SupState::Resolving, events)[i] == run_actions(
            SupState::Finished { outcome: failed },
            rest,
        )[i - 1]);
    }
}

/// When the tool is found but the manifest fetch fails — a non-2xx status
/// or a transport failure — the run ends failed with the fetch-failure
/// cause carrying that status, no manifest file is written, and no process
/// is ever spawned.
pub proof fn lemma_fetch_failure_run(events: Seq<SupEvent>, outcome: FetchOutcome)
    requires
        events.len() >= 2,
        events[0] == (SupEvent::ToolResolved { found: true }),
        events[1] == (SupEvent::FetchCompleted { outcome }),
        !(outcome matches FetchOutcome::Response { http_status } && http_success(http_status)),
    ensures
        run_states(SupState::Resolving, events) == (SupState::Finished {
            outcome: TaskOutcome::Failed { failure: fetch_failure(outcome) },
        }),
        forall|i: int|
            0 <= i < run_actions(SupState::Resolving, events).len() ==> run_actions(
                SupState::Resolving,
                events,
            )[i] != SupAction::SpawnProcess && run_actions(SupState::Resolving, events)[i]
                != SupAction::SaveManifest,
{
    let failed = TaskOutcome::Failed { failure: fetch_failure(outcome) };
    let rest1 = events.subrange(1, events.len() as int);
    let rest2 = rest1.subrange(1, rest1.len() as int);
    assert(rest1[0] == events[1]);
    lemma_finished_absorbing(failed, rest2);
    assert(run_states(SupState::Resolving, events) == run_states(SupState::Fetching, rest1));
    assert(sup_step(SupState::Fetching, rest1[0]) == (SupState::Finished { outcome: failed }, SupAction::Finalize));
    assert(run_states(SupState::Fetching, rest1) == run_states(
        SupState::Finished { outcome: failed },
        rest2,
    ));
    let acts = run_actions(SupState::Resolving, events);
    let acts1 = run_actions(SupState::Fetching, rest1);
    assert(acts[0] == SupAction::FetchManifest);
    assert(acts1[0] == SupAction::Finalize);
    assert forall|i: int| 0 <= i < acts.len() implies acts[i] != SupAction::SpawnProcess && acts[i]
        != SupAction::SaveManifest by {
        if i > 0 {
            assert(acts[i] == acts1[i - 1]);
            if i > 1 {
                assert(acts1[i - 1] == run_actions(SupState::Finished { outcome: failed }, rest2)[i
                    - 2]);
            }
        }
    }
}

/// First existing candidate wins: the index of the first candidate path that
/// exists, or `None` when no candidate exists. `candidates` and `exists`
/// run in parallel: `exists[i]` says whether the path `candidates[i]` names
/// an existing executable.
pub fn resolve_tool(candidates: &Vec<String>, exists: &Vec<bool>) -> (r: Option<usize>)
    requires
        candidates@.len() == exists@.len(),
    ensures
        match r {
            Some(i) => i < exists@.len() && exists@[i as int] && (forall|j: int|
                0 <= j < i ==> !exists@[j]),
            None => forall|j: int| 0 <= j < exists@.len() ==> !exists@[j],
        },
{
    let n = exists.len();
    let mut i: usize = 0;
    while i < n
        invariant
            n == exists@.len(),
            i <= n,
            forall|j: int| 0 <= j < i ==> !exists@[j],
        decreases n - i,
    {
        if exists[i] {
            return Some(i);
        }
        i = i + 1;
    }
    None
}

/// The CDN base URL handed to the external tool.
pub open spec fn cdn_base_view() -> Seq<char> {
    "http://lol.secure.dyn.riotcdn.net/channels/public"@
}

/// The language filter argument: the caller's pipe-delimited locale spec, or
/// `none` — international files only — when the caller gave none.
pub open spec fn language_arg_view(language: Seq<char>) -> Seq<char> {
    if language.len() == 0 {
        "none"@
    } else {
        language
    }
}

pub open spec fn arg_views(args: Seq<String>) -> Seq<Seq<char>> {
    args.map_values(|s: String| s@)
}

/// The characters that count as whitespace when deciding whether a filter
/// is blank (the Unicode white-space characters, as trimming removes them).
pub open spec fn is_space_char(c: char) -> bool {
    let n = c as u32;
    ||| n == 0x20
    ||| (0x09 <= n && n <= 0x0D)
    ||| n == 0x85
    ||| n == 0xA0
    ||| n == 0x1680
    ||| (0x2000 <= n && n <= 0x200A)
    ||| n == 0x2028
    ||| n == 0x2029
    ||| n == 0x202F
    ||| n == 0x205F
    ||| n == 0x3000
}

/// A blank filter — empty, or nothing but whitespace — means no filter.
pub open spec fn is_blank(s: Seq<char>) -> bool {
    forall|i: int| 0 <= i < s.len() ==> is_space_char(s[i])
}

/// Run-time check of `is_blank`.
pub fn content_filter_is_blank(content: &str) -> (r: bool)
    ensures
        r == is_blank(content@),
{
    let n = content.unicode_len();
    let mut i: usize = 0;
    while i < n
        invariant
            n == content@.len(),
            i <= n,
            forall|j: int| 0 <= j < i ==> is_space_char(content@[j]),
        decreases n - i,
    {
        let c = content.get_char(i);
        let v = c as u32;
        let space = v == 0x20 || (0x09 <= v && v <= 0x0D) || v == 0x85 || v == 0xA0 || v == 0x1680
            || (0x2000 <= v && v <= 0x200A) || v == 0x2028 || v == 0x2029 || v == 0x202F || v
            == 0x205F || v == 0x3000;
        if !space {
            return false;
        }
        i = i + 1;
    }
    true
}

/// The fixed invocation template for the external download tool: no-progress
/// flag, no-verify flag, the language filter, the CDN base, the worker
/// count, the optional content-type filter (absent when the filter is
/// blank, so a filter of nothing but whitespace filters nothing), then the
/// local manifest path and the output directory — each exactly once, in
/// that order.
pub open spec fn tool_arg_views(
    language: Seq<char>,
    content: Seq<char>,
    manifest_path: Seq<char>,
    output_dir: Seq<char>,
) -> Seq<Seq<char>> {
    seq![
        "--no-progress"@,
        "--no-verify"@,
        "-l"@,
        language_arg_view(language),
        "--cdn"@,
        cdn_base_view(),
        "--cdn-workers"@,
        "4"@,
    ] + (if is_blank(content) {
        Seq::<Seq<char>>::empty()
    } else {
        seq!["-p"@, content]
    }) + seq![manifest_path, output_dir]
}

/// The external tool's argument list for one run.
pub fn build_tool_args(
    language: &str,
    content: &str,
    manifest_path: &str,
    output_dir: &str,
) -> (args: Vec<String>)
    ensures
        arg_views(args@) == tool_arg_views(language@, content@, manifest_path@, output_dir@),
{
    let mut args: Vec<String> = Vec::new();
    args.push(String::from_str("--no-progress"));
    args.push(String::from_str("--no-verify"));
    args.push(String::from_str("-l"));
    if language.is_empty() {
        args.push(String::from_str("none"));
    } else {
        args.push(String::from_str(language));
    }
    args.push(String::from_str("--cdn"));
    args.push(String::from_str("http://lol.secure.dyn.riotcdn.net/channels/public"));
    args.push(String::from_str("--cdn-workers"));
    args.push(String::from_str("4"));
    if !content_filter_is_blank(content) {
        args.push(String::from_str("-p"));
        args.push(String::from_str(content));
    }
    args.push(String::from_str(manifest_path));
    args.push(String::from_str(output_dir));
    proof {
        assert(arg_views(args@) =~= tool_arg_views(
            language@,
            content@,
            manifest_path@,
            output_dir@,
        ));
    }
    args
}

/// The next progress estimate: the increase is phase-scaled — brisk in the
/// middle, slower at the edges — and the estimate never moves backwards and
/// never passes 95, since only the process's own successful exit justifies
/// reporting completion. `noise` is an arbitrary value (the surrounding
/// process draws it at random) that only varies the step size.
pub open spec fn next_estimate_of(progress: int, noise: int) -> int {
    if progress >= 95 {
        progress
    } else {
        let inc = if progress < 10 {
            2 + noise % 4
        } else if progress > 80 {
            1 + noise % 2
        } else {
            3 + noise % 6
        };
        if progress + inc > 95 {
            95
        } else {
            progress + inc
        }
    }
}

pub fn next_progress_estimate(progress: u64, noise: u64) -> (r: u64)
    requires
        progress <= 100,
    ensures
        r == next_estimate_of(progress as int, noise as int),
        progress <= r <= 100,
{
    if progress >= 95 {
        progress
    } else {
        let inc: u64 = if progress < 10 {
            2 + noise % 4
        } else if progress > 80 {
            1 + noise % 2
        } else {
            3 + noise % 6
        };
        let next = progress + inc;
        if next > 95 {
            95
        } else {
            next
        }
    }
}

} // verus!
