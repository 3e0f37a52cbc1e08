//! The task record: passive data describing one download's identity and
//! observable state, together with the spec-level transition functions that
//! every mutation of a record goes through.

use vstd::prelude::*;

verus! {

/// Lifecycle status of a download task. `Completed` and `Failed` are the
/// terminal statuses; once a record is terminal its outcome fields are fixed.
#[derive(Clone, Copy, PartialEq, Eq, Structural, Debug)]
pub enum TaskStatus {
    Pending,
    Downloading,
    Paused,
    Completed,
    Failed,
}

/// The cause recorded when a task ends in the failed status.
#[derive(Clone, Copy, PartialEq, Eq, Structural, Debug)]
pub enum TaskFailure {
    /// No candidate path held the external download tool.
    ToolNotFound,
    /// The manifest fetch got a non-success HTTP status, or the transport
    /// itself failed (recorded as status 0).
    ManifestFetchFailed { http_status: u16 },
    /// A directory or file could not be created or written.
    FilesystemError,
    /// The OS could not start the external process.
    SpawnFailed,
    /// The external process exited with a non-success code.
    ProcessExit { code: i64 },
    /// Waiting for the external process itself errored.
    WaitFailed,
    /// The bounded wait on the running process elapsed.
    Timeout,
    /// An external cancel request ended the task.
    Cancelled,
}

/// Errors returned directly to callers of the orchestrator API.
#[derive(Clone, Copy, PartialEq, Eq, Structural, Debug)]
pub enum LookupError {
    /// The given task id names no record.
    NotFound,
    /// A cancellation could not signal the process.
    KillFailed,
}

/// What a supervisor reports when its state machine reaches a terminal state.
#[derive(Clone, Copy, PartialEq, Eq, Structural, Debug)]
pub enum TaskOutcome {
    Completed,
    Failed { failure: TaskFailure },
}

/// One download task's observable state. `speed` and `eta` are display-only
/// estimates with no correctness weight; every other field is governed by
/// `wf` and by the transition functions below.
#[derive(Debug)]
pub struct TaskRecord {
    /// Unique identifier, assigned at creation, immutable afterwards.
    pub id: u64,
    /// Locator of the manifest resource to be downloaded.
    pub manifest: String,
    /// Language filter handed to the external tool.
    pub language: String,
    /// Optional content-type filter; a blank filter (empty or nothing but
    /// whitespace) means no filter.
    pub content: String,
    pub status: TaskStatus,
    /// Whole percent, 0 to 100, non-decreasing while downloading.
    pub progress: u64,
    pub speed: String,
    pub eta: String,
    /// Present exactly when `status` is `Failed`.
    pub error: Option<TaskFailure>,
    /// Creation time, milliseconds.
    pub started_at: u64,
    /// Set exactly once, on the transition into a terminal status.
    pub ended_at: Option<u64>,
    /// Caller-supplied destination directory, if any.
    pub output_dir: Option<String>,
}

impl TaskStatus {
    pub open spec fn is_terminal(self) -> bool {
        self is Completed || self is Failed
    }

    /// Run-time check of `is_terminal`.
    pub fn terminal(&self) -> (r: bool)
        ensures
            r == self.is_terminal(),
    {
        matches!(self, TaskStatus::Completed | TaskStatus::Failed)
    }
}

impl TaskRecord {
    pub open spec fn is_terminal(self) -> bool {
        self.status.is_terminal()
    }

    /// Well-formedness of a record: progress stays in range, the error field
    /// is present exactly on failure, the end time is present exactly in a
    /// terminal status, and a completed task shows full progress.
    pub open spec fn wf(self) -> bool {
        &&& self.progress <= 100
        &&& (self.status is Failed <==> self.error is Some)
        &&& (self.is_terminal() <==> self.ended_at is Some)
        &&& (self.status is Completed ==> self.progress == 100)
    }

    /// A fresh record as `start` creates it: pending, no progress, no error,
    /// not ended.
    pub fn new(
        id: u64,
        manifest: String,
        language: String,
        content: String,
        output_dir: Option<String>,
        now_ms: u64,
    ) -> (r: TaskRecord)
        ensures
            r.wf(),
            r.id == id,
            r.manifest == manifest,
            r.language == language,
            r.content == content,
            r.output_dir == output_dir,
            r.started_at == now_ms,
            r.status is Pending,
            r.progress == 0,
            r.error is None,
            r.ended_at is None,
    {
        TaskRecord {
            id,
            manifest,
            language,
            content,
            status: TaskStatus::Pending,
            progress: 0,
            speed: String::new(),
            eta: String::new(),
            error: None,
            started_at: now_ms,
            ended_at: None,
            output_dir,
        }
    }

    /// A field-for-field copy of the record.
    pub fn duplicate(&self) -> (r: TaskRecord)
        ensures
            r == *self,
    {
        TaskRecord {
            id: self.id,
            manifest: self.manifest.clone(),
            language: self.language.clone(),
            content: self.content.clone(),
            status: self.status,
            progress: self.progress,
            speed: self.speed.clone(),
            eta: self.eta.clone(),
            error: self.error,
            started_at: self.started_at,
            ended_at: self.ended_at,
            output_dir: match &self.output_dir {
                Some(d) => Some(d.clone()),
                None => None,
            },
        }
    }
}

/// The record after an external cancel request lands: a terminal record is
/// left as it is; any other record becomes failed with a cancellation cause
/// and its end time set.
pub open spec fn cancelled_record(t: TaskRecord, now_ms: u64) -> TaskRecord {
    if t.is_terminal() {
        t
    } else {
        TaskRecord {
            status: TaskStatus::Failed,
            error: Some(TaskFailure::Cancelled),
            ended_at: Some(now_ms),
            ..t
        }
    }
}

/// The record after a pause request lands: terminal and already-paused
/// records are left as they are; a pending or downloading record becomes
/// paused with its progress frozen.
pub open spec fn paused_record(t: TaskRecord) -> TaskRecord {
    if t.is_terminal() || t.status is Paused {
        t
    } else {
        TaskRecord { status: TaskStatus::Paused, ..t }
    }
}

/// The record once its supervisor starts work: a terminal record is left as
/// it is (a task cancelled before its supervisor ran stays cancelled); any
/// other record becomes downloading.
pub open spec fn downloading_record(t: TaskRecord) -> TaskRecord {
    if t.is_terminal() {
        t
    } else {
        TaskRecord { status: TaskStatus::Downloading, ..t }
    }
}

pub open spec fn clamped_percent(pct: u64) -> u64 {
    if pct > 100 {
        100
    } else {
        pct
    }
}

/// The record after a progress estimate arrives: while downloading, progress
/// moves to the estimate but never backwards and never past 100, and the
/// display fields are refreshed; in every other status the record is frozen.
pub open spec fn progressed_record(t: TaskRecord, pct: u64, speed: String, eta: String) -> TaskRecord {
    if t.status is Downloading {
        TaskRecord {
            progress: if clamped_percent(pct) > t.progress {
                clamped_percent(pct)
            } else {
                t.progress
            },
            speed: speed,
            eta: eta,
            ..t
        }
    } else {
        t
    }
}

/// The record after its supervisor reports a terminal outcome. A record that
/// is already terminal is never touched again, so the end time is written at
/// most once. A paused record absorbs failure outcomes — killing the process
/// is how pause is effected, and the resulting exit must not overwrite the
/// paused status — but a completion still lands.
pub open spec fn finalized_record(t: TaskRecord, outcome: TaskOutcome, now_ms: u64) -> TaskRecord {
    if t.is_terminal() {
        t
    } else if t.status is Paused && outcome is Failed {
        t
    } else {
        match outcome {
            TaskOutcome::Completed => TaskRecord {
                status: TaskStatus::Completed,
                progress: 100,
                error: None,
                ended_at: Some(now_ms),
                ..t
            },
            TaskOutcome::Failed { failure } => TaskRecord {
                status: TaskStatus::Failed,
                error: Some(failure),
                ended_at: Some(now_ms),
                ..t
            },
        }
    }
}

/// Every transition preserves well-formedness and never changes a record's
/// identity fields.
pub proof fn lemma_transitions_preserve_wf(t: TaskRecord, outcome: TaskOutcome, pct: u64, speed: String, eta: String, now_ms: u64)
    requires
        t.wf(),
    ensures
        cancelled_record(t, now_ms).wf(),
        paused_record(t).wf(),
        downloading_record(t).wf(),
        progressed_record(t, pct, speed, eta).wf(),
        finalized_record(t, outcome, now_ms).wf(),
        cancelled_record(t, now_ms).id == t.id,
        paused_record(t).id == t.id,
        downloading_record(t).id == t.id,
        progressed_record(t, pct, speed, eta).id == t.id,
        finalized_record(t, outcome, now_ms).id == t.id,
{
}

/// Cancellation is idempotent: once a cancel has landed, a second cancel —
/// at any later time — leaves the record exactly as the first left it.
pub proof fn lemma_cancel_idempotent(t: TaskRecord, now1: u64, now2: u64)
    ensures
        cancelled_record(cancelled_record(t, now1), now2) == cancelled_record(t, now1),
{
}

/// A well-formed terminal record carries exactly one of the two outcomes —
/// completed or failed, never both, never neither — and its end time is set.
pub proof fn lemma_terminal_outcome_exclusive(t: TaskRecord)
    requires
        t.wf(),
        t.is_terminal(),
    ensures
        (t.status is Completed) != (t.status is Failed),
        t.ended_at is Some,
        t.status is Completed ==> t.error is None && t.progress == 100,
        t.status is Failed ==> t.error is Some,
{
}

/// The end time is written exactly once: finalizing a terminal record is a
/// no-op, and the transition that makes a record terminal sets the end time
/// to the moment of that transition.
pub proof fn lemma_ended_at_write_once(t: TaskRecord, outcome: TaskOutcome, now_ms: u64)
    requires
        t.wf(),
    ensures
        t.is_terminal() ==> finalized_record(t, outcome, now_ms) == t,
        t.is_terminal() ==> cancelled_record(t, now_ms) == t,
        !t.is_terminal() && finalized_record(t, outcome, now_ms).is_terminal()
            ==> finalized_record(t, outcome, now_ms).ended_at == Some(now_ms),
        !t.is_terminal() ==> cancelled_record(t, now_ms).ended_at == Some(now_ms),
{
}

/// A terminal record is frozen: every transition — cancel, pause, the
/// supervisor starting work, a progress estimate, a terminal outcome —
/// leaves it exactly as it is, so outcome fields, once set, are never
/// overwritten.
pub proof fn lemma_terminal_record_frozen(
    t: TaskRecord,
    outcome: TaskOutcome,
    pct: u64,
    speed: String,
    eta: String,
    now_ms: u64,
)
    requires
        t.is_terminal(),
    ensures
        cancelled_record(t, now_ms) == t,
        paused_record(t) == t,
        downloading_record(t) == t,
        progressed_record(t, pct, speed, eta) == t,
        finalized_record(t, outcome, now_ms) == t,
{
}

/// The status wire names, as the calling layer shows them.
pub open spec fn status_name_view(s: TaskStatus) -> Seq<char> {
    match s {
        TaskStatus::Pending => "pending"@,
        TaskStatus::Downloading => "downloading"@,
        TaskStatus::Paused => "paused"@,
        TaskStatus::Completed => "completed"@,
        TaskStatus::Failed => "error"@,
    }
}

impl TaskStatus {
    pub fn name(&self) -> (r: &'static str)
        ensures
            r@ == status_name_view(*self),
    {
        match self {
            TaskStatus::Pending => "pending",
            TaskStatus::Downloading => "downloading",
            TaskStatus::Paused => "paused",
            TaskStatus::Completed => "completed",
            TaskStatus::Failed => "error",
        }
    }
}

/// The human-readable text for each caller-facing error.
pub open spec fn lookup_error_message_view(e: LookupError) -> Seq<char> {
    match e {
        LookupError::NotFound => "no task with this id"@,
        LookupError::KillFailed => "could not signal the download process"@,
    }
}

impl LookupError {
    pub fn message(&self) -> (r: &'static str)
        ensures
            r@ == lookup_error_message_view(*self),
    {
        match self {
            LookupError::NotFound => "no task with this id",
            LookupError::KillFailed => "could not signal the download process",
        }
    }
}

/// The human-readable cause stored for each failure kind. Callers display
/// it; control decisions go by the variant, never by this text.
pub open spec fn failure_message_view(f: TaskFailure) -> Seq<char> {
    match f {
        TaskFailure::ToolNotFound => "download tool not found in any candidate path"@,
        TaskFailure::ManifestFetchFailed { .. } => "manifest fetch failed"@,
        TaskFailure::FilesystemError => "could not create or write a file or directory"@,
        TaskFailure::SpawnFailed => "could not start the download process"@,
        TaskFailure::ProcessExit { .. } => "download process exited with an error"@,
        TaskFailure::WaitFailed => "waiting on the download process failed"@,
        TaskFailure::Timeout => "download timed out"@,
        TaskFailure::Cancelled => "download cancelled"@,
    }
}

impl TaskFailure {
    pub fn message(&self) -> (r: &'static str)
        ensures
            r@ == failure_message_view(*self),
    {
        match self {
            TaskFailure::ToolNotFound => "download tool not found in any candidate path",
            TaskFailure::ManifestFetchFailed { .. } => "manifest fetch failed",
            TaskFailure::FilesystemError => "could not create or write a file or directory",
            TaskFailure::SpawnFailed => "could not start the download process",
            TaskFailure::ProcessExit { .. } => "download process exited with an error",
            TaskFailure::WaitFailed => "waiting on the download process failed",
            TaskFailure::Timeout => "download timed out",
            TaskFailure::Cancelled => "download cancelled",
        }
    }
}

} // verus!
