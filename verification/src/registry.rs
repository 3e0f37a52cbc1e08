//! The task registry: the append-only store of task records, one per task id
//! for the task's entire lifetime. Ids are assigned densely at creation, so
//! the record for id `i` lives at position `i`; records are transitioned in
//! place and never deleted. The surrounding process serializes access, so
//! each operation here is one atomic step of the registry, and no caller
//! ever observes a partially updated record.

use vstd::prelude::*;

use crate::task::{
    cancelled_record, downloading_record, finalized_record, paused_record, progressed_record,
    LookupError, TaskOutcome, TaskRecord, TaskStatus,
};

verus! {

pub struct TaskRegistry {
    tasks: Vec<TaskRecord>,
}

impl TaskRegistry {
    /// How many records the registry holds; also the next id to assign.
    pub closed spec fn task_count(self) -> nat {
        self.tasks@.len()
    }

    /// Whether a record exists for the id.
    pub closed spec fn has(self, id: u64) -> bool {
        id < self.tasks@.len()
    }

    /// The record stored for the id.
    pub closed spec fn task(self, id: u64) -> TaskRecord {
        self.tasks@[id as int]
    }

    /// Every record is well-formed and sits at the position its id names.
    pub closed spec fn wf(self) -> bool {
        forall|i: int|
            0 <= i < self.tasks@.len() ==> (#[trigger] self.tasks@[i]).wf() && self.tasks@[i].id
                == i
    }

    /// A record exists exactly for the ids below the count: ids are handed
    /// out densely and records are never deleted.
    pub proof fn lemma_has_iff_below_count(self, id: u64)
        ensures
            self.has(id) <==> id < self.task_count(),
    {
    }

    /// A stored record is well-formed and carries the id it is stored under.
    pub proof fn lemma_task_wf(self, id: u64)
        requires
            self.wf(),
            self.has(id),
        ensures
            self.task(id).wf(),
            self.task(id).id == id,
    {
    }

    pub fn new() -> (r: TaskRegistry)
        ensures
            r.wf(),
            r.task_count() == 0,
            forall|id: u64| !r.has(id),
    {
        TaskRegistry { tasks: Vec::new() }
    }

    /// How many records exist, at run time.
    pub fn count(&self) -> (r: usize)
        ensures
            r == self.task_count(),
    {
        self.tasks.len()
    }

    /// Add a record under the next free id. The id must be the one the
    /// registry would assign — handing in any other is a programming error,
    /// which this precondition rules out rather than detects at run time.
    pub fn create(&mut self, record: TaskRecord)
        requires
            old(self).wf(),
            record.wf(),
            record.id == old(self).task_count(),
        ensures
            final(self).wf(),
            final(self).task_count() == old(self).task_count() + 1,
            final(self).has(record.id),
            final(self).task(record.id) == record,
            forall|id: u64|
                old(self).has(id) ==> final(self).has(id) && final(self).task(id) == old(
                    self,
                ).task(id),
            forall|id: u64| final(self).has(id) <==> old(self).has(id) || id == record.id,
    {
        self.tasks.push(record);
    }

    /// A consistent snapshot of one record.
    pub fn get(&self, id: u64) -> (r: Option<TaskRecord>)
        requires
            self.wf(),
        ensures
            match r {
                Some(t) => self.has(id) && t == self.task(id),
                None => !self.has(id),
            },
    {
        let n = self.tasks.len();
        if id < n as u64 {
            Some(self.tasks[id as usize].duplicate())
        } else {
            None
        }
    }

    /// A snapshot of every record, in id order.
    pub fn list_all(&self) -> (r: Vec<TaskRecord>)
        requires
            self.wf(),
        ensures
            r@.len() == self.task_count(),
            forall|i: int| 0 <= i < r@.len() ==> r@[i] == self.task(i as u64),
    {
        let mut out: Vec<TaskRecord> = Vec::new();
        let n = self.tasks.len();
        let mut i: usize = 0;
        while i < n
            invariant
                n == self.tasks@.len(),
                i <= n,
                out@.len() == i,
                forall|j: int| 0 <= j < i ==> out@[j] == self.tasks@[j],
            decreases n - i,
        {
            out.push(self.tasks[i].duplicate());
            i = i + 1;
        }
        out
    }

    /// Mark the record downloading, as the supervisor does when it starts
    /// work. Returns whether the supervisor should proceed: a record that is
    /// already terminal — cancelled before the supervisor ran — stays as it
    /// is and the supervisor must stop.
    pub fn begin_downloading(&mut self, id: u64) -> (r: Result<bool, LookupError>)
        requires
            old(self).wf(),
        ensures
            final(self).wf(),
            final(self).task_count() == old(self).task_count(),
            forall|x: u64| final(self).has(x) <==> old(self).has(x),
            !old(self).has(id) ==> *final(self) == *old(self) && r == Result::<
                bool,
                LookupError,
            >::Err(LookupError::NotFound),
            old(self).has(id) ==> {
                &&& final(self).task(id) == downloading_record(old(self).task(id))
                &&& r == Result::<bool, LookupError>::Ok(!old(self).task(id).is_terminal())
                &&& forall|x: u64|
                    old(self).has(x) && x != id ==> final(self).task(x) == old(self).task(x)
            },
    {
        let n = self.tasks.len();
        if id >= n as u64 {
            return Err(LookupError::NotFound);
        }
        let i = id as usize;
        if self.tasks[i].status.terminal() {
            Ok(false)
        } else {
            let mut rec = self.tasks[i].duplicate();
            rec.status = TaskStatus::Downloading;
            self.tasks.set(i, rec);
            Ok(true)
        }
    }

    /// Write a progress estimate. While the task is downloading, progress
    /// moves monotonically — never backwards, never past 100 — and the
    /// display fields are refreshed; in any other status the record is
    /// frozen and the estimate is discarded.
    pub fn record_progress(&mut self, id: u64, pct: u64, speed: String, eta: String) -> (r: Result<
        (),
        LookupError,
    >)
        requires
            old(self).wf(),
        ensures
            final(self).wf(),
            final(self).task_count() == old(self).task_count(),
            forall|x: u64| final(self).has(x) <==> old(self).has(x),
            !old(self).has(id) ==> *final(self) == *old(self) && r == Result::<(), LookupError>::Err(
                LookupError::NotFound,
            ),
            old(self).has(id) ==> {
                &&& final(self).task(id) == progressed_record(old(self).task(id), pct, speed, eta)
                &&& final(self).task(id).progress >= old(self).task(id).progress
                &&& r == Result::<(), LookupError>::Ok(())
                &&& forall|x: u64|
                    old(self).has(x) && x != id ==> final(self).task(x) == old(self).task(x)
            },
    {
        let n = self.tasks.len();
        if id >= n as u64 {
            return Err(LookupError::NotFound);
        }
        let i = id as usize;
        if matches!(self.tasks[i].status, TaskStatus::Downloading) {
            let clamped = if pct > 100 {
                100
            } else {
                pct
            };
            let mut rec = self.tasks[i].duplicate();
            if clamped > rec.progress {
                rec.progress = clamped;
            }
            rec.speed = speed;
            rec.eta = eta;
            self.tasks.set(i, rec);
        }
        Ok(())
    }

    /// Record a pause request: a pending or downloading record becomes
    /// paused with its progress frozen; terminal and already-paused records
    /// are left as they are.
    pub fn mark_paused(&mut self, id: u64) -> (r: Result<(), LookupError>)
        requires
            old(self).wf(),
        ensures
            final(self).wf(),
            final(self).task_count() == old(self).task_count(),
            forall|x: u64| final(self).has(x) <==> old(self).has(x),
            !old(self).has(id) ==> *final(self) == *old(self) && r == Result::<(), LookupError>::Err(
                LookupError::NotFound,
            ),
            old(self).has(id) ==> {
                &&& final(self).task(id) == paused_record(old(self).task(id))
                &&& r == Result::<(), LookupError>::Ok(())
                &&& forall|x: u64|
                    old(self).has(x) && x != id ==> final(self).task(x) == old(self).task(x)
            },
    {
        let n = self.tasks.len();
        if id >= n as u64 {
            return Err(LookupError::NotFound);
        }
        let i = id as usize;
        if !self.tasks[i].status.terminal() && !matches!(self.tasks[i].status, TaskStatus::Paused) {
            let mut rec = self.tasks[i].duplicate();
            rec.status = TaskStatus::Paused;
            self.tasks.set(i, rec);
        }
        Ok(())
    }

    /// Record a cancel request: a terminal record is left exactly as it is —
    /// cancelling twice is a no-op beyond re-asserting the state — and any
    /// other record becomes failed with a cancellation cause.
    pub fn apply_cancel(&mut self, id: u64, now_ms: u64) -> (r: Result<(), LookupError>)
        requires
            old(self).wf(),
        ensures
            final(self).wf(),
            final(self).task_count() == old(self).task_count(),
            forall|x: u64| final(self).has(x) <==> old(self).has(x),
            !old(self).has(id) ==> *final(self) == *old(self) && r == Result::<(), LookupError>::Err(
                LookupError::NotFound,
            ),
            old(self).has(id) ==> {
                &&& final(self).task(id) == cancelled_record(old(self).task(id), now_ms)
                &&& r == Result::<(), LookupError>::Ok(())
                &&& forall|x: u64|
                    old(self).has(x) && x != id ==> final(self).task(x) == old(self).task(x)
            },
    {
        let n = self.tasks.len();
        if id >= n as u64 {
            return Err(LookupError::NotFound);
        }
        let i = id as usize;
        if !self.tasks[i].status.terminal() {
            let mut rec = self.tasks[i].duplicate();
            rec.status = TaskStatus::Failed;
            rec.error = Some(crate::task::TaskFailure::Cancelled);
            rec.ended_at = Some(now_ms);
            self.tasks.set(i, rec);
        }
        Ok(())
    }

    /// Write a supervisor's terminal outcome. A record that is already
    /// terminal is never touched again, so the end time is written at most
    /// once; a paused record absorbs failure outcomes, because killing the
    /// process is how pause is effected.
    pub fn finalize(&mut self, id: u64, outcome: TaskOutcome, now_ms: u64) -> (r: Result<
        (),
        LookupError,
    >)
        requires
            old(self).wf(),
        ensures
            final(self).wf(),
            final(self).task_count() == old(self).task_count(),
            forall|x: u64| final(self).has(x) <==> old(self).has(x),
            !old(self).has(id) ==> *final(self) == *old(self) && r == Result::<(), LookupError>::Err(
                LookupError::NotFound,
            ),
            old(self).has(id) ==> {
                &&& final(self).task(id) == finalized_record(old(self).task(id), outcome, now_ms)
                &&& r == Result::<(), LookupError>::Ok(())
                &&& forall|x: u64|
                    old(self).has(x) && x != id ==> final(self).task(x) == old(self).task(x)
            },
    {
        let n = self.tasks.len();
        if id >= n as u64 {
            return Err(LookupError::NotFound);
        }
        let i = id as usize;
        if self.tasks[i].status.terminal() {
            return Ok(());
        }
        match outcome {
            TaskOutcome::Completed => {
                let mut rec = self.tasks[i].duplicate();
                rec.status = TaskStatus::Completed;
                rec.progress = 100;
                rec.error = None;
                rec.ended_at = Some(now_ms);
                self.tasks.set(i, rec);
            },
            TaskOutcome::Failed { failure } => {
                if !matches!(self.tasks[i].status, TaskStatus::Paused) {
                    let mut rec = self.tasks[i].duplicate();
                    rec.status = TaskStatus::Failed;
                    rec.error = Some(failure);
                    rec.ended_at = Some(now_ms);
                    self.tasks.set(i, rec);
                }
            },
        }
        Ok(())
    }
}

} // verus!
