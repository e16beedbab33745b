use vstd::prelude::*;

use crate::actions::{Action, ActionResult};
use crate::config::{env_map, GitTaskConfig};
use crate::errors::{error_text, GitOpsError};
use crate::receiver::{has_changes, is_terminal, terminal_count, WorkloadEvent};
use crate::state::CommitId;
use crate::text::concat3;

verus! {

/// `name` placed inside directory `dir`.
pub open spec fn join_path(dir: Seq<char>, name: Seq<char>) -> Seq<char> {
    if name.len() > 0 && name[0] == '/' {
        name
    } else if dir.len() == 0 {
        name
    } else if dir.last() == '/' {
        dir + name
    } else {
        dir + seq!['/'] + name
    }
}

/// Places `name` inside directory `dir`.
pub fn join_path_exec(dir: &str, name: &str) -> (r: String)
    ensures
        r@ == join_path(dir@, name@),
{
    let nl = name.unicode_len();
    let dl = dir.unicode_len();
    proof {
        reveal_strlit("/");
    }
    if nl > 0 && name.get_char(0) == '/' {
        String::from_str(name)
    } else if dl == 0 {
        String::from_str(name)
    } else if dir.get_char(dl - 1) == '/' {
        let mut s = String::from_str(dir);
        s.append(name);
        s
    } else {
        concat3(dir, "/", name)
    }
}

/// The variable that carries the commit a run checked out.
pub open spec fn sha_var() -> Seq<char> {
    "KITOPS_SHA"@
}

/// The variable that carries the last commit whose commands all succeeded.
pub open spec fn last_sha_var() -> Seq<char> {
    "KITOPS_LAST_SUCCESSFUL_SHA"@
}

/// `a` is `orig` prepared for a run from commit `prev` to commit `new`: the
/// same command, with both commit ids in its environment over what it had.
pub open spec fn prepared(a: Action, orig: Action, prev: Seq<char>, new: Seq<char>) -> bool {
    &&& a.spec_config().name == orig.spec_config().name
    &&& a.spec_config().entrypoint == orig.spec_config().entrypoint
    &&& a.spec_config().args == orig.spec_config().args
    &&& a.spec_config().inherit_environment == orig.spec_config().inherit_environment
    &&& env_map(a.spec_config().environment@) == env_map(orig.spec_config().environment@).insert(
        last_sha_var(),
        prev,
    ).insert(sha_var(), new)
}

fn prepare_actions(actions: &mut Vec<Action>, prev: &CommitId, new: &CommitId)
    ensures
        final(actions)@.len() == old(actions)@.len(),
        forall|k: int|
            0 <= k < old(actions)@.len() ==> prepared(
                #[trigger] final(actions)@[k],
                old(actions)@[k],
                prev@,
                new@,
            ),
{
    let ghost orig = actions@;
    let n = actions.len();
    let mut i: usize = 0;
    while i < n
        invariant
            n == orig.len(),
            actions@.len() == n,
            i <= n,
            forall|k: int| 0 <= k < i ==> prepared(#[trigger] actions@[k], orig[k], prev@, new@),
            forall|k: int| i <= k < n ==> #[trigger] actions@[k] == orig[k],
        decreases n - i,
    {
        actions[i].set_env(String::from_str("KITOPS_LAST_SUCCESSFUL_SHA"), prev.to_hex());
        actions[i].set_env(String::from_str("KITOPS_SHA"), new.to_hex());
        i = i + 1;
    }
}

/// A task's pipeline: its configuration, its commands and the directory of
/// its local mirror.
#[derive(Debug, Clone)]
pub struct GitWorkload {
    config: GitTaskConfig,
    actions: Vec<Action>,
    repo_dir: String,
}

impl GitWorkload {
    pub closed spec fn spec_config(&self) -> GitTaskConfig {
        self.config
    }

    pub closed spec fn spec_actions(&self) -> Seq<Action> {
        self.actions@
    }

    pub closed spec fn spec_repo_dir(&self) -> Seq<char> {
        self.repo_dir@
    }

    /// The pipeline of `config`; its mirror is `safe_url` inside `repo_dir`.
    pub fn new(config: GitTaskConfig, safe_url: &str, repo_dir: &str) -> (r: GitWorkload)
        ensures
            r.spec_config() == config,
            r.spec_repo_dir() == join_path(repo_dir@, safe_url@),
            r.spec_actions().len() == config.actions@.len(),
            forall|i: int|
                0 <= i < config.actions@.len() ==> (#[trigger] r.spec_actions()[i]).spec_config().same_as(
                    config.actions@[i],
                ),
    {
        let mut actions: Vec<Action> = Vec::new();
        let mut i: usize = 0;
        while i < config.actions.len()
            invariant
                i <= config.actions@.len(),
                actions@.len() == i,
                forall|k: int|
                    0 <= k < i ==> (#[trigger] actions@[k]).spec_config().same_as(
                        config.actions@[k],
                    ),
            decreases config.actions@.len() - i,
        {
            actions.push(Action::new(config.actions[i].copied()));
            i = i + 1;
        }
        let repo_dir = join_path_exec(repo_dir, safe_url);
        GitWorkload { config, actions, repo_dir }
    }

    /// The task's name.
    pub fn id(&self) -> (r: String)
        ensures
            r@ == self.spec_config().name@,
    {
        self.config.name.clone()
    }

    pub fn interval(&self) -> (r: u64)
        ensures
            r == self.spec_config().interval,
    {
        self.config.interval
    }

    pub fn config(&self) -> (r: &GitTaskConfig)
        ensures
            *r == self.spec_config(),
    {
        &self.config
    }

    pub fn repo_dir(&self) -> (r: &String)
        ensures
            r@ == self.spec_repo_dir(),
    {
        &self.repo_dir
    }

    /// The moment a run started at `now` must be over by (milliseconds).
    pub fn deadline(&self, now: u64) -> (r: u64)
        ensures
            r as int == if now + self.spec_config().timeout > u64::MAX {
                u64::MAX as int
            } else {
                now + self.spec_config().timeout
            },
    {
        now.saturating_add(self.config.timeout)
    }

    /// Begins a run of this pipeline; `prev_sha` is the last commit whose
    /// commands all succeeded.
    pub fn start_run(self, prev_sha: CommitId) -> (r: WorkloadRun)
        ensures
            r.wf(),
            r.phase() == RunPhase::Fetching,
            r.emitted() == Seq::<WorkloadEvent>::empty(),
            r.task() == self.spec_config().name@,
            r.prev() == prev_sha@,
            r.spec_actions() == self.spec_actions(),
    {
        let new_sha = prev_sha.copied();
        WorkloadRun {
            task: self.config.name,
            actions: self.actions,
            prev_sha,
            new_sha,
            phase: RunPhase::Fetching,
            outcome: None,
            log: Ghost(Seq::empty()),
            refused: Ghost(false),
        }
    }
}

/// Where a run stands.
#[derive(Debug, Clone, Copy, PartialEq, Eq, Structural)]
pub enum RunPhase {
    /// waiting for the checkout of the branch tip
    Fetching,
    /// waiting for the watchers to take the `Changes` event
    Announcing,
    /// waiting for the command of this index to finish
    Acting(usize),
    /// waiting for the watchers to take the closing event
    Concluding,
    /// waiting for the work directory to be removed
    CleaningUp,
    /// over
    Done,
}

/// What the outside world reports to a run.
#[derive(Debug)]
pub enum RunInput {
    /// the tip of the branch was checked out into the work directory, or
    /// resolving the location or fetching failed
    CheckedOut(Result<CommitId, GitOpsError>),
    /// the watchers took the last event, or one of them refused it
    Delivered(Result<(), GitOpsError>),
    /// the last command ended, or could not be run
    ActionDone(Result<ActionResult, GitOpsError>),
    /// the work directory was removed, or could not be
    CleanedUp(Result<(), GitOpsError>),
}

/// What a run asks the outside world to do next.
#[derive(Debug)]
pub enum RunStep {
    /// hand this event to every watcher, in order
    Emit(WorkloadEvent),
    /// run the command of this index under this display name
    RunAction(usize, String),
    /// remove the work directory
    RemoveWorkdir,
    /// the run is over, with this result
    Finish(Result<CommitId, GitOpsError>),
}

/// The decisions of one run of a task's pipeline: fetch, compare with the
/// last commit seen, run the commands in order up to the first that fails,
/// report, clean up.
pub struct WorkloadRun {
    task: String,
    actions: Vec<Action>,
    prev_sha: CommitId,
    new_sha: CommitId,
    phase: RunPhase,
    outcome: Option<GitOpsError>,
    log: Ghost<Seq<WorkloadEvent>>,
    refused: Ghost<bool>,
}

impl WorkloadRun {
    pub closed spec fn task(&self) -> Seq<char> {
        self.task@
    }

    pub closed spec fn prev(&self) -> Seq<char> {
        self.prev_sha@
    }

    /// The commit checked out (meaningful once past `Fetching`).
    pub closed spec fn new(&self) -> Seq<char> {
        self.new_sha@
    }

    pub closed spec fn phase(&self) -> RunPhase {
        self.phase
    }

    pub closed spec fn spec_actions(&self) -> Seq<Action> {
        self.actions@
    }

    /// The error the run ends with once its closing event is delivered;
    /// none when it succeeded.
    pub closed spec fn outcome(&self) -> Option<GitOpsError> {
        self.outcome
    }

    /// The events handed out so far, in order.
    pub closed spec fn emitted(&self) -> Seq<WorkloadEvent> {
        self.log@
    }

    /// Whether the watchers refused the announcement of a change.
    pub closed spec fn announce_refused(&self) -> bool {
        self.refused@
    }

    /// The display name of command `i`: `<task>|<command>`.
    pub open spec fn command_name(&self, i: int) -> Seq<char> {
        self.task() + "|"@ + self.spec_actions()[i].spec_config().name@
    }

    pub closed spec fn wf(&self) -> bool {
        let log = self.log@;
        &&& self.refused@ ==> self.phase == RunPhase::Done && log.len() == 1
        &&& match self.phase {
            RunPhase::Fetching => log.len() == 0,
            RunPhase::Announcing => log.len() == 1 && log[0] is Changes,
            RunPhase::Acting(i) => i < self.actions@.len() && log.len() == 1 && log[0] is Changes,
            RunPhase::Concluding => log.len() == 2 && log[0] is Changes && is_terminal(log[1]),
            RunPhase::CleaningUp => log.len() == 0 || (log.len() == 2 && log[0] is Changes
                && is_terminal(log[1])),
            RunPhase::Done => log.len() == 0 || (log.len() == 1 && log[0] is Changes
                && self.refused@) || (log.len() == 2 && log[0] is Changes && is_terminal(log[1])),
        }
    }

    /// Whether `input` is what the run waits for.
    pub open spec fn accepts(&self, input: RunInput) -> bool {
        match self.phase() {
            RunPhase::Fetching => input is CheckedOut,
            RunPhase::Announcing | RunPhase::Concluding => input is Delivered,
            RunPhase::Acting(_) => input is ActionDone,
            RunPhase::CleaningUp => input is CleanedUp,
            RunPhase::Done => false,
        }
    }

    pub fn is_done(&self) -> (r: bool)
        ensures
            r == (self.phase() == RunPhase::Done),
    {
        self.phase == RunPhase::Done
    }

    /// The command of index `i`, prepared for this run.
    pub fn action(&self, i: usize) -> (r: &Action)
        requires
            i < self.spec_actions().len(),
        ensures
            *r == self.spec_actions()[i as int],
    {
        &self.actions[i]
    }

    fn command_name_exec(&self, i: usize) -> (r: String)
        requires
            i < self.actions@.len(),
        ensures
            r@ == self.command_name(i as int),
    {
        let id = self.actions[i].id();
        concat3(self.task.as_str(), "|", id.as_str())
    }

    fn emit(&mut self, e: WorkloadEvent) -> (r: RunStep)
        ensures
            r == RunStep::Emit(e),
            final(self).emitted() == old(self).emitted().push(e),
            final(self).task == old(self).task,
            final(self).actions == old(self).actions,
            final(self).prev_sha == old(self).prev_sha,
            final(self).new_sha == old(self).new_sha,
            final(self).phase == old(self).phase,
            final(self).outcome == old(self).outcome,
            final(self).refused == old(self).refused,
    {
        let ghost g = e;
        self.log = Ghost(self.log@.push(g));
        RunStep::Emit(e)
    }

    /// Takes what the outside world reports and says what it is to do next.
    pub fn step(&mut self, input: RunInput) -> (r: RunStep)
        requires
            old(self).wf(),
            old(self).accepts(input),
        ensures
            final(self).wf(),
            final(self).task() == old(self).task(),
            final(self).prev() == old(self).prev(),
            r matches RunStep::Emit(ev) ==> final(self).emitted() == old(self).emitted().push(ev),
            !(r is Emit) ==> final(self).emitted() == old(self).emitted(),
            (r is Finish) <==> final(self).phase() == RunPhase::Done,
            old(self).phase() != RunPhase::Fetching ==> final(self).new() == old(self).new()
                && final(self).spec_actions() == old(self).spec_actions(),
            // checkout
            input matches RunInput::CheckedOut(Err(e)) ==> r == RunStep::Finish(Err(e)),
            input matches RunInput::CheckedOut(Ok(sha)) ==> final(self).new() == sha@ && (if sha@
                == old(self).prev() {
                &&& r is RemoveWorkdir
                &&& final(self).phase() == RunPhase::CleaningUp
                &&& final(self).outcome() is None
                &&& final(self).spec_actions() == old(self).spec_actions()
            } else {
                &&& r matches RunStep::Emit(WorkloadEvent::Changes(t, p, n)) && t@ == old(
                    self,
                ).task() && p@ == old(self).prev() && n@ == sha@
                &&& final(self).phase() == RunPhase::Announcing
                &&& final(self).spec_actions().len() == old(self).spec_actions().len()
                &&& forall|k: int|
                    0 <= k < old(self).spec_actions().len() ==> prepared(
                        #[trigger] final(self).spec_actions()[k],
                        old(self).spec_actions()[k],
                        old(self).prev(),
                        sha@,
                    )
            }),
            // a watcher refused an event
            input matches RunInput::Delivered(Err(e)) ==> (r matches RunStep::Finish(
                Err(GitOpsError::NotifyError(m)),
            ) && m@ == error_text(e)),
            // the change was announced
            old(self).phase() == RunPhase::Announcing && input is Delivered && input->Delivered_0
                is Ok ==> (if old(self).spec_actions().len() > 0 {
                &&& r matches RunStep::RunAction(i, name) && i == 0 && name@ == old(
                    self,
                ).command_name(0)
                &&& final(self).phase() == RunPhase::Acting(0)
            } else {
                &&& r matches RunStep::Emit(WorkloadEvent::Success(t, n)) && t@ == old(self).task()
                    && n@ == old(self).new()
                &&& final(self).phase() == RunPhase::Concluding
                &&& final(self).outcome() is None
            }),
            // a command ended
            old(self).phase() matches RunPhase::Acting(i) ==> (match input {
                RunInput::ActionDone(Ok(ActionResult::Success)) => if i + 1 < old(
                    self,
                ).spec_actions().len() {
                    &&& r matches RunStep::RunAction(j, name) && j == i + 1 && name@ == old(
                        self,
                    ).command_name(i + 1)
                    &&& final(self).phase() == RunPhase::Acting((i + 1) as usize)
                } else {
                    &&& r matches RunStep::Emit(WorkloadEvent::Success(t, n)) && t@ == old(
                        self,
                    ).task() && n@ == old(self).new()
                    &&& final(self).phase() == RunPhase::Concluding
                    &&& final(self).outcome() is None
                },
                RunInput::ActionDone(Ok(ActionResult::Failure)) => {
                    &&& r matches RunStep::Emit(WorkloadEvent::Failure(t, c, n)) && t@ == old(
                        self,
                    ).task() && c@ == old(self).command_name(i as int) && n@ == old(self).new()
                    &&& final(self).phase() == RunPhase::Concluding
                    &&& final(self).outcome() matches Some(GitOpsError::ActionFailed(t, c)) && t@
                        == old(self).task() && c@ == old(self).command_name(i as int)
                },
                RunInput::ActionDone(Err(e)) => {
                    &&& r matches RunStep::Emit(WorkloadEvent::Error(t, m, n)) && t@ == old(
                        self,
                    ).task() && m@ == error_text(e) && n@ == old(self).new()
                    &&& final(self).phase() == RunPhase::Concluding
                    &&& final(self).outcome() == Some(e)
                },
                _ => true,
            }),
            // the closing event was delivered
            old(self).phase() == RunPhase::Concluding && input is Delivered && input->Delivered_0
                is Ok ==> (match old(self).outcome() {
                None => r is RemoveWorkdir && final(self).phase() == RunPhase::CleaningUp,
                Some(e) => r == RunStep::Finish(Err(e)),
            }),
            // cleanup
            input matches RunInput::CleanedUp(Ok(_)) ==> (r matches RunStep::Finish(Ok(n)) && n@
                == old(self).new()),
            input matches RunInput::CleanedUp(Err(e)) ==> r == RunStep::Finish(Err(e)),
    {
        match input {
            RunInput::CheckedOut(Err(e)) => {
                self.phase = RunPhase::Done;
                RunStep::Finish(Err(e))
            },
            RunInput::CheckedOut(Ok(sha)) => {
                if sha == self.prev_sha {
                    self.new_sha = sha;
                    self.phase = RunPhase::CleaningUp;
                    self.outcome = None;
                    RunStep::RemoveWorkdir
                } else {
                    prepare_actions(&mut self.actions, &self.prev_sha, &sha);
                    let ev = WorkloadEvent::Changes(
                        self.task.clone(),
                        self.prev_sha.copied(),
                        sha.copied(),
                    );
                    self.new_sha = sha;
                    self.phase = RunPhase::Announcing;
                    self.emit(ev)
                }
            },
            RunInput::Delivered(Err(e)) => {
                if self.phase == RunPhase::Announcing {
                    self.refused = Ghost(true);
                }
                self.phase = RunPhase::Done;
                RunStep::Finish(Err(GitOpsError::NotifyError(e.message())))
            },
            RunInput::Delivered(Ok(())) => {
                if self.phase == RunPhase::Announcing {
                    if self.actions.len() > 0 {
                        self.phase = RunPhase::Acting(0);
                        RunStep::RunAction(0, self.command_name_exec(0))
                    } else {
                        let ev = WorkloadEvent::Success(self.task.clone(), self.new_sha.copied());
                        self.phase = RunPhase::Concluding;
                        self.outcome = None;
                        self.emit(ev)
                    }
                } else {
                    match self.outcome.take() {
                        None => {
                            self.phase = RunPhase::CleaningUp;
                            RunStep::RemoveWorkdir
                        },
                        Some(e) => {
                            self.phase = RunPhase::Done;
                            RunStep::Finish(Err(e))
                        },
                    }
                }
            },
            RunInput::ActionDone(res) => {
                let i = match self.phase {
                    RunPhase::Acting(i) => i,
                    _ => 0,
                };
                match res {
                    Ok(ActionResult::Success) => {
                        if i < self.actions.len() && i + 1 < self.actions.len() {
                            self.phase = RunPhase::Acting(i + 1);
                            RunStep::RunAction(i + 1, self.command_name_exec(i + 1))
                        } else {
                            let ev = WorkloadEvent::Success(
                                self.task.clone(),
                                self.new_sha.copied(),
                            );
                            self.phase = RunPhase::Concluding;
                            self.outcome = None;
                            self.emit(ev)
                        }
                    },
                    Ok(ActionResult::Failure) => {
                        let name = self.command_name_exec(i);
                        let ev = WorkloadEvent::Failure(
                            self.task.clone(),
                            name.clone(),
                            self.new_sha.copied(),
                        );
                        self.phase = RunPhase::Concluding;
                        self.outcome = Some(GitOpsError::ActionFailed(self.task.clone(), name));
                        self.emit(ev)
                    },
                    Err(e) => {
                        let ev = WorkloadEvent::Error(
                            self.task.clone(),
                            e.message(),
                            self.new_sha.copied(),
                        );
                        self.phase = RunPhase::Concluding;
                        self.outcome = Some(e);
                        self.emit(ev)
                    },
                }
            },
            RunInput::CleanedUp(Ok(())) => {
                self.phase = RunPhase::Done;
                RunStep::Finish(Ok(self.new_sha.copied()))
            },
            RunInput::CleanedUp(Err(e)) => {
                self.phase = RunPhase::Done;
                RunStep::Finish(Err(e))
            },
        }
    }
}

/// Of the events of a run, at most one closes it (`Success`, `Failure` or
/// `Error`), and only after a `Changes`. Once the run is over, and unless the
/// watchers refused the announcement of the change, exactly one closing
/// event was emitted if a change was announced, and none otherwise.
pub proof fn lemma_one_terminal_event(run: WorkloadRun)
    requires
        run.wf(),
    ensures
        terminal_count(run.emitted()) <= 1,
        terminal_count(run.emitted()) == 1 ==> run.emitted()[0] is Changes,
        !has_changes(run.emitted()) ==> terminal_count(run.emitted()) == 0,
        run.phase() == RunPhase::Done && !run.announce_refused() ==> terminal_count(run.emitted())
            == (if has_changes(run.emitted()) { 1nat } else { 0nat }),
{
    let s = run.emitted();
    if s.len() >= 1 {
        assert(s.subrange(0, 1).drop_last() =~= Seq::<WorkloadEvent>::empty());
        assert(terminal_count(Seq::<WorkloadEvent>::empty()) == 0);
        assert(s[0] is Changes);
        assert(has_changes(s));
    }
    if s.len() == 1 {
        assert(s.drop_last() =~= Seq::<WorkloadEvent>::empty());
        assert(terminal_count(s) == 0);
    }
    if s.len() == 2 {
        let s1 = s.drop_last();
        assert(s1.drop_last() =~= Seq::<WorkloadEvent>::empty());
        assert(s1.last() == s[0]);
        assert(terminal_count(s1) == 0);
        assert(terminal_count(s) == 1);
    }
}

} // verus!
