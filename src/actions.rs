use vstd::prelude::*;

use crate::config::{env_map, ActionConfig};
use crate::receiver::{is_command_end, ProcessExit, SourceType, WorkloadEvent};

verus! {

/// How a command invocation ended, as far as the run is concerned.
#[derive(Debug, Clone, Copy, PartialEq, Eq, Structural)]
pub enum ActionResult {
    Success,
    Failure,
}

/// A command that a task runs, with its configuration.
#[derive(Debug, Clone)]
pub struct Action {
    config: ActionConfig,
}

proof fn lemma_env_map_push(e: Seq<(String, String)>, p: (String, String))
    ensures
        env_map(e.push(p)) == env_map(e).insert(p.0@, p.1@),
{
    assert(e.push(p).drop_last() =~= e);
}

impl Action {
    pub closed spec fn spec_config(&self) -> ActionConfig {
        self.config
    }

    pub fn new(config: ActionConfig) -> (r: Action)
        ensures
            r.spec_config() == config,
    {
        Action { config }
    }

    /// The configured display name.
    pub fn id(&self) -> (r: String)
        ensures
            r@ == self.spec_config().name@,
    {
        self.config.name.clone()
    }

    pub fn config(&self) -> (r: &ActionConfig)
        ensures
            *r == self.spec_config(),
    {
        &self.config
    }

    /// Sets `key` to `val` in the command's environment, replacing any
    /// earlier value of `key`.
    pub fn set_env(&mut self, key: String, val: String)
        ensures
            env_map(final(self).spec_config().environment@) == env_map(
                old(self).spec_config().environment@,
            ).insert(key@, val@),
            final(self).spec_config().name == old(self).spec_config().name,
            final(self).spec_config().entrypoint == old(self).spec_config().entrypoint,
            final(self).spec_config().args == old(self).spec_config().args,
            final(self).spec_config().inherit_environment == old(
                self,
            ).spec_config().inherit_environment,
    {
        let old_env = Ghost(self.config.environment@);
        let mut kept: Vec<(String, String)> = Vec::new();
        let mut i: usize = 0;
        let n = self.config.environment.len();
        while i < n
            invariant
                n == self.config.environment@.len(),
                self.config.environment@ == old_env@,
                i <= n,
                env_map(kept@) == env_map(old_env@.subrange(0, i as int)).remove(key@),
            decreases n - i,
        {
            let p = &self.config.environment[i];
            proof {
                assert(old_env@.subrange(0, i + 1) =~= old_env@.subrange(0, i as int).push(*p));
                lemma_env_map_push(old_env@.subrange(0, i as int), *p);
            }
            if p.0 != key {
                let q = (p.0.clone(), p.1.clone());
                proof {
                    lemma_env_map_push(kept@, q);
                }
                kept.push(q);
                assert(env_map(kept@) =~= env_map(old_env@.subrange(0, i + 1)).remove(key@));
            } else {
                assert(env_map(kept@) =~= env_map(old_env@.subrange(0, i + 1)).remove(key@));
            }
            i = i + 1;
        }
        assert(old_env@.subrange(0, n as int) =~= old_env@);
        let q = (key, val);
        proof {
            lemma_env_map_push(kept@, q);
        }
        kept.push(q);
        assert(env_map(kept@) =~= env_map(old_env@).insert(q.0@, q.1@));
        self.config.environment = kept;
    }
}

/// How the environment of a command process is to be set up: whether the
/// inherited environment is cleared first, and the assignments then applied
/// in order.
#[derive(Debug, Clone)]
pub struct EnvPlan {
    pub clear: bool,
    pub vars: Vec<(String, String)>,
}

/// The environment of a command process. A command that does not inherit
/// the agent's environment starts empty but for `PATH`, taken from the agent
/// (`parent_path`), so that interpreters named by scripts still resolve. The
/// configured assignments come after, so they take precedence.
pub fn env_plan(config: &ActionConfig, parent_path: Option<String>) -> (r: EnvPlan)
    ensures
        r.clear == !config.inherit_environment,
        ({
            let off: int = if !config.inherit_environment && parent_path is Some { 1 } else { 0 };
            &&& r.vars@.len() == off + config.environment@.len()
            &&& forall|i: int|
                0 <= i < config.environment@.len() ==> r.vars@[off + i] == config.environment@[i]
            &&& off == 1 ==> r.vars@[0].0@ == "PATH"@ && r.vars@[0].1 == parent_path.unwrap()
        }),
{
    let mut vars: Vec<(String, String)> = Vec::new();
    let off: usize = if !config.inherit_environment && parent_path.is_some() { 1 } else { 0 };
    if !config.inherit_environment {
        match parent_path {
            Some(p) => {
                vars.push((String::from_str("PATH"), p));
            },
            None => {},
        }
    }
    let n = config.environment.len();
    let mut i: usize = 0;
    while i < n
        invariant
            n == config.environment@.len(),
            i <= n,
            vars@.len() == off + i,
            forall|k: int| 0 <= k < i ==> vars@[off + k] == config.environment@[k],
            off == 1 ==> vars@[0].0@ == "PATH"@ && vars@[0].1 == parent_path.unwrap(),
        decreases n - i,
    {
        let p = &config.environment[i];
        vars.push((p.0.clone(), p.1.clone()));
        i = i + 1;
    }
    EnvPlan { clear: !config.inherit_environment, vars }
}

/// What the poll loop of a running command does next.
#[derive(Debug, Clone, Copy, PartialEq, Eq, Structural)]
pub enum PollStep {
    /// the process has exited: collect the rest of its output, then close
    Collect,
    /// the deadline has passed: kill the process, collect, then close
    Kill,
    /// look again after one poll interval
    Wait,
}

/// An exited process is collected even when the deadline has passed as well;
/// a process still running after its deadline (milliseconds) is killed.
pub fn poll_step(exited: bool, now: u64, deadline: u64) -> (r: PollStep)
    ensures
        r == (if exited {
            PollStep::Collect
        } else if now > deadline {
            PollStep::Kill
        } else {
            PollStep::Wait
        }),
{
    if exited {
        PollStep::Collect
    } else if now > deadline {
        PollStep::Kill
    } else {
        PollStep::Wait
    }
}

/// Every event of `s` but the last is command output, and only the last may
/// close the command.
pub open spec fn outputs_then_end(s: Seq<WorkloadEvent>) -> bool {
    &&& forall|i: int| 0 <= i < s.len() ==> (#[trigger] s[i] is ActionOutput || is_command_end(s[i]))
    &&& forall|i: int| 0 <= i < s.len() - 1 ==> !is_command_end(#[trigger] s[i])
}

/// The reporting side of one command invocation: it turns what was read from
/// the process and how the process ended into events, and keeps the events
/// handed out so far.
pub struct CommandRun {
    name: String,
    ended: bool,
    log: Ghost<Seq<WorkloadEvent>>,
}

impl CommandRun {
    pub closed spec fn spec_name(&self) -> Seq<char> {
        self.name@
    }

    /// Whether the invocation has been closed by an exit or a timeout.
    pub closed spec fn is_ended(&self) -> bool {
        self.ended
    }

    /// The events handed out so far, in order.
    pub closed spec fn emitted(&self) -> Seq<WorkloadEvent> {
        self.log@
    }

    pub closed spec fn wf(&self) -> bool {
        &&& outputs_then_end(self.log@)
        &&& self.ended <==> (self.log@.len() > 0 && is_command_end(self.log@.last()))
    }

    pub fn new(name: String) -> (r: CommandRun)
        ensures
            r.wf(),
            !r.is_ended(),
            r.emitted() == Seq::<WorkloadEvent>::empty(),
            r.spec_name() == name@,
    {
        CommandRun { name, ended: false, log: Ghost(Seq::empty()) }
    }

    /// The event for `len` bytes read into `buf` from `stream`; none for an
    /// empty read, which marks the end of the stream.
    pub fn output(&mut self, stream: SourceType, buf: &[u8], len: usize) -> (r: Option<
        WorkloadEvent,
    >)
        requires
            old(self).wf(),
            !old(self).is_ended(),
            len <= buf@.len(),
        ensures
            final(self).wf(),
            !final(self).is_ended(),
            final(self).spec_name() == old(self).spec_name(),
            len == 0 ==> r is None && final(self).emitted() == old(self).emitted(),
            len > 0 ==> (r matches Some(WorkloadEvent::ActionOutput(n, s, data)) && n@
                == old(self).spec_name() && s == stream && data@ == buf@.subrange(0, len as int)
                && final(self).emitted() == old(self).emitted().push(r.unwrap())),
    {
        if len == 0 {
            return None;
        }
        let mut data: Vec<u8> = Vec::new();
        let mut i: usize = 0;
        while i < len
            invariant
                len <= buf@.len(),
                i <= len,
                data@ == buf@.subrange(0, i as int),
            decreases len - i,
        {
            data.push(buf[i]);
            assert(data@ =~= buf@.subrange(0, i + 1));
            i = i + 1;
        }
        let e = WorkloadEvent::ActionOutput(self.name.clone(), stream, data);
        let ghost g = e;
        self.log = Ghost(self.log@.push(g));
        proof {
            let s = self.log@;
            assert(forall|k: int| 0 <= k < s.len() - 1 ==> s[k] == old(self).log@[k]);
        }
        Some(e)
    }

    /// Closes the invocation with the process's exit.
    pub fn exited(&mut self, exit: ProcessExit) -> (r: (WorkloadEvent, ActionResult))
        requires
            old(self).wf(),
            !old(self).is_ended(),
        ensures
            final(self).wf(),
            final(self).is_ended(),
            (r.0 matches WorkloadEvent::ActionExit(n, x) && n@ == old(self).spec_name() && x == exit),
            r.1 == (if exit.succeeded() { ActionResult::Success } else { ActionResult::Failure }),
            final(self).emitted() == old(self).emitted().push(r.0),
    {
        let e = WorkloadEvent::ActionExit(self.name.clone(), exit);
        let ghost g = e;
        self.log = Ghost(self.log@.push(g));
        self.ended = true;
        proof {
            let s = self.log@;
            assert(forall|k: int| 0 <= k < s.len() - 1 ==> s[k] == old(self).log@[k]);
        }
        let res = if exit.success() { ActionResult::Success } else { ActionResult::Failure };
        (e, res)
    }

    /// Closes the invocation because the deadline passed; the process has
    /// been killed.
    pub fn timed_out(&mut self) -> (r: (WorkloadEvent, ActionResult))
        requires
            old(self).wf(),
            !old(self).is_ended(),
        ensures
            final(self).wf(),
            final(self).is_ended(),
            (r.0 matches WorkloadEvent::Timeout(n) && n@ == old(self).spec_name()),
            r.1 == ActionResult::Failure,
            final(self).emitted() == old(self).emitted().push(r.0),
    {
        let e = WorkloadEvent::Timeout(self.name.clone());
        let ghost g = e;
        self.log = Ghost(self.log@.push(g));
        self.ended = true;
        proof {
            let s = self.log@;
            assert(forall|k: int| 0 <= k < s.len() - 1 ==> s[k] == old(self).log@[k]);
        }
        (e, ActionResult::Failure)
    }
}

/// Of the events of one command invocation, every `ActionOutput` comes before
/// the `ActionExit` or `Timeout` that closes it, and once closed there is
/// exactly one such event, the last.
pub proof fn lemma_outputs_precede_end(run: CommandRun)
    requires
        run.wf(),
    ensures
        forall|i: int, j: int|
            0 <= i < run.emitted().len() && 0 <= j < run.emitted().len() && (
            #[trigger] run.emitted()[i]) is ActionOutput && is_command_end(
                #[trigger] run.emitted()[j],
            ) ==> i < j,
        run.is_ended() ==> is_command_end(run.emitted().last()) && forall|j: int|
            0 <= j < run.emitted().len() && is_command_end(#[trigger] run.emitted()[j]) ==> j
                == run.emitted().len() - 1,
{
}

} // verus!
