use vstd::prelude::*;

pub mod actions;
pub mod config;
pub mod errors;
pub mod github;
pub mod gix;
pub mod opts;
pub mod receiver;
pub mod state;
pub mod store;
pub mod task;
pub mod text;
pub mod utils;
pub mod workload;

use crate::errors::{fatal, GitOpsError};
use crate::state::State;
use crate::task::{later, ScheduledTask, WorkerSlot};

verus! {

/// Whether the supervisor found anything to do or wait for.
#[derive(Debug, Clone, Copy, PartialEq, Eq, Structural)]
pub enum Progress {
    Running,
    Idle,
}

/// What one supervisor tick did, and what is left to the caller.
#[derive(Debug, Clone, Copy, PartialEq, Eq, Structural)]
pub enum Tick {
    /// The task of this index was started and rescheduled: spawn its worker,
    /// then persist its state.
    Started(usize),
    /// The worker of the task at this index succeeded and its commit was
    /// recorded: persist the task's state.
    Finalized(usize),
    /// The worker of the task at this index failed without harm; nothing to
    /// persist.
    Dropped(usize),
    /// Some task is still running.
    Waiting,
    /// Nothing to do.
    Idle,
}

impl Tick {
    pub fn progress(&self) -> (r: Progress)
        ensures
            r == (if *self == Tick::Idle { Progress::Idle } else { Progress::Running }),
    {
        match self {
            Tick::Idle => Progress::Idle,
            _ => Progress::Running,
        }
    }
}

/// What the supervisor loop does after a tick.
#[derive(Debug, Clone, Copy, PartialEq, Eq, Structural)]
pub enum LoopMove {
    /// tick again at once
    Continue,
    /// sleep one poll interval, then tick again
    Sleep,
    /// return: once-only mode found nothing to do
    Stop,
}

/// After an idle tick the loop stops in once-only mode and sleeps otherwise;
/// after any other tick it goes on at once.
pub fn loop_move(tick: Tick, once_only: bool) -> (r: LoopMove)
    ensures
        r == (if tick != Tick::Idle {
            LoopMove::Continue
        } else if once_only {
            LoopMove::Stop
        } else {
            LoopMove::Sleep
        }),
{
    match tick {
        Tick::Idle => if once_only {
            LoopMove::Stop
        } else {
            LoopMove::Sleep
        },
        _ => LoopMove::Continue,
    }
}

/// Some task of `s` is eligible at `now`.
pub open spec fn any_eligible<W>(s: Seq<ScheduledTask<W>>, now: u64) -> bool {
    exists|i: int| 0 <= i < s.len() && #[trigger] s[i].eligible(now)
}

/// Some task of `s` has a finished worker.
pub open spec fn any_finished<W>(s: Seq<ScheduledTask<W>>) -> bool {
    exists|i: int| 0 <= i < s.len() && #[trigger] s[i].spec_worker() is Finished
}

/// Some task of `s` has a running worker.
pub open spec fn any_running<W>(s: Seq<ScheduledTask<W>>) -> bool {
    exists|i: int| 0 <= i < s.len() && #[trigger] s[i].spec_worker() is Running
}

/// `t` is `o` after finalization took in the result of its run.
pub open spec fn finalized_from<W>(t: ScheduledTask<W>, o: ScheduledTask<W>) -> bool {
    &&& t.spec_worker() is Empty
    &&& t.spec_work() == o.spec_work()
    &&& t.spec_id() == o.spec_id()
    &&& t.spec_interval() == o.spec_interval()
    &&& t.spec_state().next_run == o.spec_state().next_run
    &&& match o.spec_worker() {
        WorkerSlot::Finished(Ok(sha)) => t.spec_state().current_sha == sha,
        _ => t.spec_state() == o.spec_state(),
    }
}

/// One decision of the supervisor at time `now`: start the first eligible
/// task; failing that, take in the result of the first finished one; failing
/// that, report whether any task is still running. Only a fatal error of a
/// run is handed back.
pub fn progress_one_task<W>(tasks: &mut Vec<ScheduledTask<W>>, now: u64) -> (r: Result<
    Tick,
    GitOpsError,
>)
    ensures
        final(tasks)@.len() == old(tasks)@.len(),
        forall|k: int|
            0 <= k < old(tasks)@.len() && !((#[trigger] old(tasks)@[k]).spec_worker() is Empty)
                ==> final(tasks)@[k].spec_worker() == old(tasks)@[k].spec_worker()
                || final(tasks)@[k].spec_worker() is Empty,
        any_eligible(old(tasks)@, now) <==> r matches Ok(Tick::Started(_)),
        r matches Ok(Tick::Started(i)) ==> {
            &&& i < old(tasks)@.len()
            &&& old(tasks)@[i as int].eligible(now)
            &&& forall|k: int| 0 <= k < i ==> !(#[trigger] old(tasks)@[k]).eligible(now)
            &&& final(tasks)@[i as int] == old(tasks)@[i as int].launched(now)
            &&& final(tasks)@[i as int].spec_worker() is Running
            &&& final(tasks)@[i as int].spec_state().next_run == later(
                now,
                old(tasks)@[i as int].spec_interval(),
            )
            &&& final(tasks)@[i as int].spec_state().current_sha == old(
                tasks,
            )@[i as int].spec_state().current_sha
            &&& forall|k: int|
                0 <= k < old(tasks)@.len() && k != i ==> #[trigger] final(tasks)@[k] == old(
                    tasks,
                )@[k]
        },
        !any_eligible(old(tasks)@, now) && any_finished(old(tasks)@) <==> (r matches Ok(
            Tick::Finalized(_),
        ) || r matches Ok(Tick::Dropped(_)) || r is Err),
        !any_eligible(old(tasks)@, now) && any_finished(old(tasks)@) ==> exists|i: int|
            {
                &&& 0 <= i < old(tasks)@.len()
                &&& (#[trigger] old(tasks)@[i]).spec_worker() is Finished
                &&& forall|k: int| 0 <= k < i ==> !((#[trigger] old(tasks)@[k]).spec_worker() is Finished)
                &&& finalized_from(final(tasks)@[i], old(tasks)@[i])
                &&& forall|k: int|
                    0 <= k < old(tasks)@.len() && k != i ==> #[trigger] final(tasks)@[k] == old(
                        tasks,
                    )@[k]
                &&& match old(tasks)@[i].spec_worker() {
                    WorkerSlot::Finished(Ok(_)) => r == Ok::<Tick, GitOpsError>(
                        Tick::Finalized(i as usize),
                    ),
                    WorkerSlot::Finished(Err(e)) => if fatal(e) {
                        r == Err::<Tick, GitOpsError>(e)
                    } else {
                        r == Ok::<Tick, GitOpsError>(Tick::Dropped(i as usize))
                    },
                    _ => false,
                }
            },
        !any_eligible(old(tasks)@, now) && !any_finished(old(tasks)@) ==> {
            &&& final(tasks)@ == old(tasks)@
            &&& r == Ok::<Tick, GitOpsError>(
                if any_running(old(tasks)@) { Tick::Waiting } else { Tick::Idle },
            )
        },
{
    let n = tasks.len();
    let mut i: usize = 0;
    while i < n
        invariant
            n == tasks@.len(),
            tasks@ == old(tasks)@,
            i <= n,
            forall|k: int| 0 <= k < i ==> !(#[trigger] tasks@[k]).eligible(now),
        decreases n - i,
    {
        if tasks[i].is_eligible(now) {
            tasks[i].start(now);
            tasks[i].schedule_next(now);
            proof {
                let o = old(tasks)@[i as int];
                o.lemma_with_parts_twice(
                    o.spec_state(),
                    WorkerSlot::Running,
                    State { next_run: later(now, o.spec_interval()), ..o.spec_state() },
                    WorkerSlot::Running,
                );
                o.lemma_with_parts(
                    State { next_run: later(now, o.spec_interval()), ..o.spec_state() },
                    WorkerSlot::Running,
                );
            }
            return Ok(Tick::Started(i));
        }
        i = i + 1;
    }
    let mut i: usize = 0;
    while i < n
        invariant
            n == tasks@.len(),
            tasks@ == old(tasks)@,
            !any_eligible(old(tasks)@, now),
            i <= n,
            forall|k: int| 0 <= k < i ==> !((#[trigger] tasks@[k]).spec_worker() is Finished),
        decreases n - i,
    {
        if tasks[i].is_finished() {
            let res = tasks[i].finalize();
            proof {
                assert(finalized_from(tasks@[i as int], old(tasks)@[i as int]));
            }
            match res {
                Ok(()) => {
                    return Ok(Tick::Finalized(i));
                },
                Err(e) => {
                    if e.is_fatal() {
                        return Err(e);
                    } else {
                        return Ok(Tick::Dropped(i));
                    }
                },
            }
        }
        i = i + 1;
    }
    let mut i: usize = 0;
    while i < n
        invariant
            n == tasks@.len(),
            tasks@ == old(tasks)@,
            !any_eligible(old(tasks)@, now),
            !any_finished(old(tasks)@),
            i <= n,
            forall|k: int| 0 <= k < i ==> !((#[trigger] tasks@[k]).spec_worker() is Running),
        decreases n - i,
    {
        if tasks[i].is_running() {
            return Ok(Tick::Waiting);
        }
        i = i + 1;
    }
    Ok(Tick::Idle)
}

} // verus!
