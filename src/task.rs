use vstd::prelude::*;

use crate::errors::GitOpsError;
use crate::state::{null_hex, CommitId, State};

verus! {

/// The worker of a task, as the supervisor knows it.
#[derive(Debug)]
pub enum WorkerSlot {
    /// no worker
    Empty,
    /// a worker is performing a run
    Running,
    /// the worker is done, with the run's result, and awaits finalization
    Finished(Result<CommitId, GitOpsError>),
}

/// `now + interval`, held at the largest time.
pub open spec fn later(now: u64, interval: u64) -> u64 {
    if now + interval > u64::MAX {
        u64::MAX
    } else {
        (now + interval) as u64
    }
}

/// A task under the supervisor: its workload, its persisted state and its
/// worker. Times are milliseconds since the Unix epoch.
pub struct ScheduledTask<W> {
    work: W,
    id: String,
    interval: u64,
    state: State,
    worker: WorkerSlot,
}

impl<W> ScheduledTask<W> {
    pub closed spec fn spec_work(&self) -> W {
        self.work
    }

    pub closed spec fn spec_id(&self) -> Seq<char> {
        self.id@
    }

    pub closed spec fn spec_interval(&self) -> u64 {
        self.interval
    }

    pub closed spec fn spec_state(&self) -> State {
        self.state
    }

    pub closed spec fn spec_worker(&self) -> WorkerSlot {
        self.worker
    }

    /// No worker, and due.
    pub open spec fn eligible(&self, now: u64) -> bool {
        self.spec_worker() is Empty && now >= self.spec_state().next_run
    }

    /// The task as `start` and `schedule_next` at `now` leave it.
    pub open spec fn launched(&self, now: u64) -> ScheduledTask<W> {
        self.with_parts(
            State { next_run: later(now, self.spec_interval()), ..self.spec_state() },
            WorkerSlot::Running,
        )
    }

    /// The task with the given state and worker.
    pub closed spec fn with_parts(&self, state: State, worker: WorkerSlot) -> ScheduledTask<W> {
        ScheduledTask { state, worker, ..*self }
    }

    pub proof fn lemma_with_parts(&self, state: State, worker: WorkerSlot)
        ensures
            self.with_parts(state, worker).spec_state() == state,
            self.with_parts(state, worker).spec_worker() == worker,
            self.with_parts(state, worker).spec_work() == self.spec_work(),
            self.with_parts(state, worker).spec_id() == self.spec_id(),
            self.with_parts(state, worker).spec_interval() == self.spec_interval(),
    {
    }

    pub proof fn lemma_with_parts_twice(&self, s1: State, w1: WorkerSlot, s2: State, w2: WorkerSlot)
        ensures
            self.with_parts(s1, w1).with_parts(s2, w2) == self.with_parts(s2, w2),
    {
    }

    /// A task never run, due at once; `id` and `interval` (milliseconds) are
    /// those of `work`.
    pub fn new(work: W, id: String, interval: u64) -> (r: ScheduledTask<W>)
        ensures
            r.spec_work() == work,
            r.spec_id() == id@,
            r.spec_interval() == interval,
            r.spec_state().next_run == 0,
            r.spec_state().current_sha@ == null_hex(),
            r.spec_worker() is Empty,
    {
        ScheduledTask { work, id, interval, state: State::initial(), worker: WorkerSlot::Empty }
    }

    pub fn id(&self) -> (r: String)
        ensures
            r@ == self.spec_id(),
    {
        self.id.clone()
    }

    pub fn work(&self) -> (r: &W)
        ensures
            *r == self.spec_work(),
    {
        &self.work
    }

    pub fn is_eligible(&self, now: u64) -> (r: bool)
        ensures
            r == self.eligible(now),
    {
        match self.worker {
            WorkerSlot::Empty => now >= self.state.next_run,
            _ => false,
        }
    }

    pub fn is_running(&self) -> (r: bool)
        ensures
            r == self.spec_worker() is Running,
    {
        match self.worker {
            WorkerSlot::Running => true,
            _ => false,
        }
    }

    pub fn is_finished(&self) -> (r: bool)
        ensures
            r == self.spec_worker() is Finished,
    {
        match self.worker {
            WorkerSlot::Finished(_) => true,
            _ => false,
        }
    }

    /// The next run is due one interval after `now`.
    pub fn schedule_next(&mut self, now: u64)
        ensures
            final(self).spec_state().next_run == later(now, old(self).spec_interval()),
            final(self).spec_state().next_run >= now,
            *final(self) == old(self).with_parts(
                State { next_run: later(now, old(self).spec_interval()), ..old(self).spec_state() },
                old(self).spec_worker(),
            ),
            final(self).spec_state().current_sha == old(self).spec_state().current_sha,
            final(self).spec_worker() == old(self).spec_worker(),
            final(self).spec_work() == old(self).spec_work(),
            final(self).spec_id() == old(self).spec_id(),
            final(self).spec_interval() == old(self).spec_interval(),
    {
        self.state.next_run = now.saturating_add(self.interval);
    }

    /// Records that a worker has been launched for the task, which must be
    /// eligible at `now`.
    pub fn start(&mut self, now: u64)
        requires
            old(self).eligible(now),
        ensures
            final(self).spec_worker() is Running,
            *final(self) == old(self).with_parts(old(self).spec_state(), WorkerSlot::Running),
            final(self).spec_state() == old(self).spec_state(),
            final(self).spec_work() == old(self).spec_work(),
            final(self).spec_id() == old(self).spec_id(),
            final(self).spec_interval() == old(self).spec_interval(),
    {
        self.worker = WorkerSlot::Running;
    }

    /// Records the result that the worker came back with.
    pub fn record_result(&mut self, result: Result<CommitId, GitOpsError>)
        requires
            old(self).spec_worker() is Running,
        ensures
            final(self).spec_worker() == WorkerSlot::Finished(result),
            final(self).spec_state() == old(self).spec_state(),
            final(self).spec_work() == old(self).spec_work(),
            final(self).spec_id() == old(self).spec_id(),
            final(self).spec_interval() == old(self).spec_interval(),
    {
        self.worker = WorkerSlot::Finished(result);
    }

    /// Takes the finished run's result: a success moves the task to the
    /// commit that run checked out; an error leaves the state as it was and
    /// is handed back.
    pub fn finalize(&mut self) -> (r: Result<(), GitOpsError>)
        requires
            old(self).spec_worker() is Finished,
        ensures
            final(self).spec_worker() is Empty,
            final(self).spec_work() == old(self).spec_work(),
            final(self).spec_id() == old(self).spec_id(),
            final(self).spec_interval() == old(self).spec_interval(),
            final(self).spec_state().next_run == old(self).spec_state().next_run,
            match old(self).spec_worker() {
                WorkerSlot::Finished(Ok(sha)) => r is Ok && final(self).spec_state().current_sha
                    == sha,
                WorkerSlot::Finished(Err(e)) => r == Err::<(), GitOpsError>(e)
                    && final(self).spec_state() == old(self).spec_state(),
                _ => false,
            },
    {
        let mut slot = WorkerSlot::Empty;
        std::mem::swap(&mut slot, &mut self.worker);
        match slot {
            WorkerSlot::Finished(Ok(sha)) => {
                self.state.current_sha = sha;
                Ok(())
            },
            WorkerSlot::Finished(Err(e)) => Err(e),
            _ => Ok(()),
        }
    }

    pub fn state(&self) -> (r: State)
        ensures
            r == self.spec_state(),
    {
        self.state.copied()
    }

    /// Takes a remembered state, but runs no later than one interval after
    /// `now`, so that a shortened interval takes effect at once.
    pub fn set_state(&mut self, state: State, now: u64)
        ensures
            final(self).spec_state().current_sha == state.current_sha,
            final(self).spec_state().next_run == if state.next_run < later(
                now,
                old(self).spec_interval(),
            ) {
                state.next_run
            } else {
                later(now, old(self).spec_interval())
            },
            final(self).spec_worker() == old(self).spec_worker(),
            final(self).spec_work() == old(self).spec_work(),
            final(self).spec_id() == old(self).spec_id(),
            final(self).spec_interval() == old(self).spec_interval(),
    {
        let bound = now.saturating_add(self.interval);
        let next_run = if state.next_run < bound { state.next_run } else { bound };
        self.state = State { next_run, current_sha: state.current_sha };
    }
}

} // verus!
