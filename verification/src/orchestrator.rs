//! The orchestrator API: the operations a caller uses to start, pause,
//! resume, cancel and query downloads. One orchestrator owns the two
//! process-wide stores — the task registry and the process-handle registry —
//! for the life of the process; all mutation goes through their atomic
//! operations. The surrounding process serializes calls into this type and
//! performs the process-level work (spawning, killing, waiting) that the
//! returned directives ask for.

use vstd::prelude::*;

use crate::catalog::{same_entry, PatchManifest};
use crate::handles::HandleRegistry;
use crate::registry::TaskRegistry;
use crate::task::{
    cancelled_record, downloading_record, finalized_record, paused_record, progressed_record,
    LookupError, TaskOutcome, TaskRecord,
};

verus! {

/// What a caller needs to re-launch a task's process: the original manifest
/// reference and output directory (and the stored filters), as `start`
/// recorded them.
pub struct ResumeInfo {
    pub manifest: String,
    pub language: String,
    pub content: String,
    pub output_dir: Option<String>,
}

pub struct Orchestrator {
    tasks: TaskRegistry,
    handles: HandleRegistry,
    entries: Vec<PatchManifest>,
}

impl Orchestrator {
    /// How many task records exist; also the next task id to assign.
    pub closed spec fn task_count(self) -> nat {
        self.tasks.task_count()
    }

    /// Whether a task record exists for the id.
    pub closed spec fn has_task(self, id: u64) -> bool {
        self.tasks.has(id)
    }

    /// The task record stored for the id.
    pub closed spec fn task_of(self, id: u64) -> TaskRecord {
        self.tasks.task(id)
    }

    /// Whether the id has a live process entry.
    pub closed spec fn handle_live(self, id: u64) -> bool {
        self.handles.is_live(id)
    }

    /// The stored catalog.
    pub closed spec fn catalog(self) -> Seq<PatchManifest> {
        self.entries@
    }

    /// Both stores are well-formed, and a live process entry always belongs
    /// to an existing task.
    pub closed spec fn wf(self) -> bool {
        &&& self.tasks.wf()
        &&& self.handles.wf()
        &&& forall|id: u64| #[trigger] self.handles.is_live(id) ==> self.tasks.has(id)
    }

    /// Ids not yet handed out name no record: a progress query for a task
    /// that was never started finds nothing.
    pub proof fn lemma_unstarted_id_not_found(self, id: u64)
        requires
            self.task_count() <= id,
        ensures
            !self.has_task(id),
    {
        self.tasks.lemma_has_iff_below_count(id);
    }

    /// An existing record is well-formed and carries the id it is stored
    /// under: a progress query for `id` returns a record whose `id` is `id`.
    pub proof fn lemma_task_identity(self, id: u64)
        requires
            self.wf(),
            self.has_task(id),
        ensures
            self.task_of(id).wf(),
            self.task_of(id).id == id,
    {
        self.tasks.lemma_task_wf(id);
    }

    /// A task that has reached a terminal state carries exactly one of the
    /// two outcomes — completed or failed, never both, never neither — and
    /// its end time is set.
    pub proof fn lemma_terminal_task_outcome(self, id: u64)
        requires
            self.wf(),
            self.has_task(id),
            self.task_of(id).is_terminal(),
        ensures
            (self.task_of(id).status is Completed) != (self.task_of(id).status is Failed),
            self.task_of(id).ended_at is Some,
            self.task_of(id).status is Completed ==> self.task_of(id).error is None,
            self.task_of(id).status is Failed ==> self.task_of(id).error is Some,
    {
        self.tasks.lemma_task_wf(id);
        crate::task::lemma_terminal_outcome_exclusive(self.task_of(id));
    }

    /// A fresh orchestrator: no tasks, no live processes, empty catalog.
    pub fn new() -> (r: Orchestrator)
        ensures
            r.wf(),
            r.task_count() == 0,
            forall|id: u64| !r.has_task(id),
            forall|id: u64| !r.handle_live(id),
            r.catalog() == Seq::<PatchManifest>::empty(),
    {
        Orchestrator { tasks: TaskRegistry::new(), handles: HandleRegistry::new(), entries: Vec::new() }
    }

    /// Replace the catalog view atomically with the fetched entries and
    /// return a snapshot of them. Task state is untouched.
    pub fn fetch_manifests(&mut self, fetched: Vec<PatchManifest>) -> (r: Vec<PatchManifest>)
        requires
            old(self).wf(),
        ensures
            final(self).wf(),
            final(self).catalog() == fetched@,
            r@.len() == fetched@.len(),
            forall|i: int| 0 <= i < r@.len() ==> same_entry(r@[i], fetched@[i]),
            final(self).task_count() == old(self).task_count(),
            forall|id: u64| final(self).has_task(id) == old(self).has_task(id),
            forall|id: u64|
                old(self).has_task(id) ==> final(self).task_of(id) == old(self).task_of(id),
            forall|id: u64| final(self).handle_live(id) == old(self).handle_live(id),
    {
        let mut snapshot: Vec<PatchManifest> = Vec::new();
        let n = fetched.len();
        let mut i: usize = 0;
        while i < n
            invariant
                n == fetched@.len(),
                i <= n,
                snapshot@.len() == i,
                forall|j: int| 0 <= j < i ==> same_entry(snapshot@[j], fetched@[j]),
            decreases n - i,
        {
            snapshot.push(fetched[i].duplicate());
            i = i + 1;
        }
        self.entries = fetched;
        snapshot
    }

    /// Create a task: a fresh id — one never handed out before — and a
    /// pending record holding exactly the caller's parameters. Returns at
    /// once; the caller then drives the new task's supervisor. Every other
    /// record, every process entry and the catalog are untouched.
    pub fn start_download(
        &mut self,
        manifest: String,
        language: String,
        content: String,
        output_path: Option<String>,
        now_ms: u64,
    ) -> (id: u64)
        requires
            old(self).wf(),
            old(self).task_count() < u64::MAX,
        ensures
            final(self).wf(),
            id == old(self).task_count(),
            !old(self).has_task(id),
            final(self).has_task(id),
            final(self).task_count() == old(self).task_count() + 1,
            final(self).task_of(id).wf(),
            final(self).task_of(id).id == id,
            final(self).task_of(id).manifest == manifest,
            final(self).task_of(id).language == language,
            final(self).task_of(id).content == content,
            final(self).task_of(id).output_dir == output_path,
            final(self).task_of(id).started_at == now_ms,
            final(self).task_of(id).status is Pending,
            final(self).task_of(id).progress == 0,
            final(self).task_of(id).error is None,
            final(self).task_of(id).ended_at is None,
            forall|x: u64| old(self).has_task(x) ==> final(self).has_task(x),
            forall|x: u64|
                old(self).has_task(x) ==> final(self).task_of(x) == old(self).task_of(x),
            forall|x: u64| final(self).has_task(x) <==> old(self).has_task(x) || x == id,
            forall|x: u64| final(self).handle_live(x) == old(self).handle_live(x),
            final(self).catalog() == old(self).catalog(),
    {
        let id = self.tasks.count() as u64;
        proof {
            self.tasks.lemma_has_iff_below_count(id);
        }
        let record = TaskRecord::new(id, manifest, language, content, output_path, now_ms);
        self.tasks.create(record);
        id
    }

    /// A consistent snapshot of one task record, or nothing for an unknown
    /// id.
    pub fn get_download_progress(&self, id: u64) -> (r: Option<TaskRecord>)
        requires
            self.wf(),
        ensures
            match r {
                Some(t) => self.has_task(id) && t == self.task_of(id),
                None => !self.has_task(id),
            },
    {
        self.tasks.get(id)
    }

    /// A snapshot of every task record, in id order.
    pub fn list_downloads(&self) -> (r: Vec<TaskRecord>)
        requires
            self.wf(),
        ensures
            r@.len() == self.task_count(),
            forall|i: int| 0 <= i < r@.len() ==> r@[i] == self.task_of(i as u64),
    {
        self.tasks.list_all()
    }

    /// Record a pause request: the record becomes paused (unless terminal or
    /// already paused), the task's process entry is retired, and the caller
    /// is told whether a live process must now be killed. Best-effort: the
    /// kill is issued after this returns, and the supervisor's exit path
    /// respects the paused status rather than overwriting it.
    pub fn pause_download(&mut self, id: u64) -> (r: Result<bool, LookupError>)
        requires
            old(self).wf(),
        ensures
            final(self).wf(),
            !old(self).has_task(id) ==> *final(self) == *old(self) && r == Result::<
                bool,
                LookupError,
            >::Err(LookupError::NotFound),
            old(self).has_task(id) ==> {
                &&& r == Result::<bool, LookupError>::Ok(old(self).handle_live(id))
                &&& final(self).task_of(id) == paused_record(old(self).task_of(id))
                &&& !final(self).handle_live(id)
                &&& forall|x: u64|
                    x != id ==> final(self).handle_live(x) == old(self).handle_live(x)
                &&& forall|x: u64|
                    old(self).has_task(x) && x != id ==> final(self).task_of(x) == old(
                        self,
                    ).task_of(x)
            },
            final(self).task_count() == old(self).task_count(),
            forall|x: u64| final(self).has_task(x) == old(self).has_task(x),
            final(self).catalog() == old(self).catalog(),
    {
        match self.tasks.mark_paused(id) {
            Ok(_) => {
                let was_live = self.handles.remove(id);
                Ok(was_live)
            },
            Err(e) => Err(e),
        }
    }

    /// What is needed to re-launch the task's process path: the original
    /// manifest reference and output directory, with the stored filters.
    /// The record itself is untouched; the relaunched supervisor marks it
    /// downloading when it starts work.
    pub fn resume_download(&self, id: u64) -> (r: Result<ResumeInfo, LookupError>)
        requires
            self.wf(),
        ensures
            match r {
                Ok(info) => {
                    &&& self.has_task(id)
                    &&& info.manifest == self.task_of(id).manifest
                    &&& info.language == self.task_of(id).language
                    &&& info.content == self.task_of(id).content
                    &&& info.output_dir == self.task_of(id).output_dir
                },
                Err(e) => !self.has_task(id) && e == LookupError::NotFound,
            },
    {
        match self.tasks.get(id) {
            Some(t) => Ok(
                ResumeInfo {
                    manifest: t.manifest,
                    language: t.language,
                    content: t.content,
                    output_dir: t.output_dir,
                },
            ),
            None => Err(LookupError::NotFound),
        }
    }

    /// Record a cancel request: a terminal record is re-asserted unchanged —
    /// cancelling twice is a no-op — and any other record becomes failed
    /// with a cancellation cause and its end time set. The task's process
    /// entry is retired, and the caller is told whether a live process must
    /// now be killed; the call does not wait for that kill to land.
    pub fn cancel_download(&mut self, id: u64, now_ms: u64) -> (r: Result<bool, LookupError>)
        requires
            old(self).wf(),
        ensures
            final(self).wf(),
            !old(self).has_task(id) ==> *final(self) == *old(self) && r == Result::<
                bool,
                LookupError,
            >::Err(LookupError::NotFound),
            old(self).has_task(id) ==> {
                &&& r == Result::<bool, LookupError>::Ok(old(self).handle_live(id))
                &&& final(self).task_of(id) == cancelled_record(old(self).task_of(id), now_ms)
                &&& final(self).task_of(id).is_terminal()
                &&& !final(self).handle_live(id)
                &&& forall|x: u64|
                    x != id ==> final(self).handle_live(x) == old(self).handle_live(x)
                &&& forall|x: u64|
                    old(self).has_task(x) && x != id ==> final(self).task_of(x) == old(
                        self,
                    ).task_of(x)
            },
            final(self).task_count() == old(self).task_count(),
            forall|x: u64| final(self).has_task(x) == old(self).has_task(x),
            final(self).catalog() == old(self).catalog(),
    {
        match self.tasks.apply_cancel(id, now_ms) {
            Ok(_) => {
                let was_live = self.handles.remove(id);
                Ok(was_live)
            },
            Err(e) => Err(e),
        }
    }

    /// The supervisor starts work: mark the record downloading and learn
    /// whether to proceed. A task already terminal — cancelled before its
    /// supervisor ran — stays as it is and the supervisor must stop without
    /// spawning anything.
    pub fn begin_downloading(&mut self, id: u64) -> (r: Result<bool, LookupError>)
        requires
            old(self).wf(),
        ensures
            final(self).wf(),
            !old(self).has_task(id) ==> *final(self) == *old(self) && r == Result::<
                bool,
                LookupError,
            >::Err(LookupError::NotFound),
            old(self).has_task(id) ==> {
                &&& r == Result::<bool, LookupError>::Ok(!old(self).task_of(id).is_terminal())
                &&& final(self).task_of(id) == downloading_record(old(self).task_of(id))
                &&& forall|x: u64|
                    old(self).has_task(x) && x != id ==> final(self).task_of(x) == old(
                        self,
                    ).task_of(x)
            },
            final(self).task_count() == old(self).task_count(),
            forall|x: u64| final(self).has_task(x) == old(self).has_task(x),
            forall|x: u64| final(self).handle_live(x) == old(self).handle_live(x),
            final(self).catalog() == old(self).catalog(),
    {
        self.tasks.begin_downloading(id)
    }

    /// The supervisor spawned the task's process: record the live entry so
    /// out-of-band cancellation can reach it from this point on.
    pub fn note_spawned(&mut self, id: u64) -> (r: Result<(), LookupError>)
        requires
            old(self).wf(),
        ensures
            final(self).wf(),
            !old(self).has_task(id) ==> *final(self) == *old(self) && r == Result::<
                (),
                LookupError,
            >::Err(LookupError::NotFound),
            old(self).has_task(id) ==> {
                &&& r == Result::<(), LookupError>::Ok(())
                &&& final(self).handle_live(id)
                &&& forall|x: u64|
                    x != id ==> final(self).handle_live(x) == old(self).handle_live(x)
                &&& forall|x: u64|
                    old(self).has_task(x) ==> final(self).task_of(x) == old(self).task_of(x)
            },
            final(self).task_count() == old(self).task_count(),
            forall|x: u64| final(self).has_task(x) == old(self).has_task(x),
            final(self).catalog() == old(self).catalog(),
    {
        let n = self.tasks.count();
        proof {
            self.tasks.lemma_has_iff_below_count(id);
        }
        if id >= n as u64 {
            return Err(LookupError::NotFound);
        }
        if !self.handles.contains(id) {
            self.handles.register(id);
        }
        Ok(())
    }

    /// Write a supervisor's progress estimate; see the task registry for the
    /// monotonicity it keeps.
    pub fn report_progress(&mut self, id: u64, pct: u64, speed: String, eta: String) -> (r: Result<
        (),
        LookupError,
    >)
        requires
            old(self).wf(),
        ensures
            final(self).wf(),
            !old(self).has_task(id) ==> *final(self) == *old(self) && r == Result::<
                (),
                LookupError,
            >::Err(LookupError::NotFound),
            old(self).has_task(id) ==> {
                &&& r == Result::<(), LookupError>::Ok(())
                &&& final(self).task_of(id) == progressed_record(
                    old(self).task_of(id),
                    pct,
                    speed,
                    eta,
                )
                &&& final(self).task_of(id).progress >= old(self).task_of(id).progress
                &&& forall|x: u64|
                    old(self).has_task(x) && x != id ==> final(self).task_of(x) == old(
                        self,
                    ).task_of(x)
            },
            final(self).task_count() == old(self).task_count(),
            forall|x: u64| final(self).has_task(x) == old(self).has_task(x),
            forall|x: u64| final(self).handle_live(x) == old(self).handle_live(x),
            final(self).catalog() == old(self).catalog(),
    {
        self.tasks.record_progress(id, pct, speed, eta)
    }

    /// Write a supervisor's terminal outcome and retire the task's process
    /// entry. A record already terminal is never touched again — the end
    /// time is written at most once — and a paused record absorbs failure
    /// outcomes, since killing the process is how pause is effected.
    pub fn finish_task(&mut self, id: u64, outcome: TaskOutcome, now_ms: u64) -> (r: Result<
        (),
        LookupError,
    >)
        requires
            old(self).wf(),
        ensures
            final(self).wf(),
            !old(self).has_task(id) ==> *final(self) == *old(self) && r == Result::<
                (),
                LookupError,
            >::Err(LookupError::NotFound),
            old(self).has_task(id) ==> {
                &&& r == Result::<(), LookupError>::Ok(())
                &&& final(self).task_of(id) == finalized_record(
                    old(self).task_of(id),
                    outcome,
                    now_ms,
                )
                &&& !final(self).handle_live(id)
                &&& forall|x: u64|
                    x != id ==> final(self).handle_live(x) == old(self).handle_live(x)
                &&& forall|x: u64|
                    old(self).has_task(x) && x != id ==> final(self).task_of(x) == old(
                        self,
                    ).task_of(x)
            },
            final(self).task_count() == old(self).task_count(),
            forall|x: u64| final(self).has_task(x) == old(self).has_task(x),
            final(self).catalog() == old(self).catalog(),
    {
        match self.tasks.finalize(id, outcome, now_ms) {
            Ok(_) => {
                let _ = self.handles.remove(id);
                Ok(())
            },
            Err(e) => Err(e),
        }
    }
}

} // verus!
