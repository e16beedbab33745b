use kitops::actions::{ActionResult, CommandRun};
use kitops::config::{ActionConfig, GitConfig, GitTaskConfig};
use kitops::errors::GitOpsError;
use kitops::gix::GitUrl;
use kitops::receiver::{ProcessExit, SourceType, WorkloadEvent};
use kitops::state::CommitId;
use kitops::workload::{GitWorkload, RunInput, RunStep, WorkloadRun};

const C1: &str = "1111111111111111111111111111111111111111";
const C2: &str = "2222222222222222222222222222222222222222";

fn action(name: &str, entrypoint: &str) -> ActionConfig {
    ActionConfig {
        name: name.to_owned(),
        entrypoint: entrypoint.to_owned(),
        args: vec![],
        environment: vec![],
        inherit_environment: false,
    }
}

fn workload(actions: Vec<ActionConfig>) -> GitWorkload {
    let config = GitTaskConfig {
        name: "ze-task".to_owned(),
        github: None,
        git: GitConfig {
            url: GitUrl::parse("file:///tmp/upstream").unwrap(),
            branch: "main".to_owned(),
        },
        actions,
        interval: 60_000,
        timeout: 10,
    };
    GitWorkload::new(config, "file____tmp_upstream", "/var/repos")
}

fn c(hex: &str) -> CommitId {
    CommitId::from_hex(hex).unwrap()
}

fn emitted(step: &RunStep) -> WorkloadEvent {
    match step {
        RunStep::Emit(e) => e.clone(),
        other => panic!("expected an event, got {:?}", other),
    }
}

fn delivered(run: &mut WorkloadRun) -> RunStep {
    run.step(RunInput::Delivered(Ok(())))
}

#[test]
fn first_observation_runs_commands() {
    let mut run = workload(vec![action("ze-action", "/bin/ls")]).start_run(CommitId::null());
    let step = run.step(RunInput::CheckedOut(Ok(c(C1))));
    assert_eq!(
        emitted(&step),
        WorkloadEvent::Changes("ze-task".to_owned(), CommitId::null(), c(C1))
    );
    let step = delivered(&mut run);
    assert!(matches!(&step, RunStep::RunAction(0, name) if name == "ze-task|ze-action"));
    let mut cmd = CommandRun::new("ze-task|ze-action".to_owned());
    let out = cmd.output(SourceType::StdOut, b"ze-file\n", 8).unwrap();
    assert_eq!(
        out,
        WorkloadEvent::ActionOutput(
            "ze-task|ze-action".to_owned(),
            SourceType::StdOut,
            b"ze-file\n".to_vec()
        )
    );
    let (exit, res) = cmd.exited(ProcessExit { code: Some(0) });
    assert_eq!(
        exit,
        WorkloadEvent::ActionExit("ze-task|ze-action".to_owned(), ProcessExit { code: Some(0) })
    );
    let step = run.step(RunInput::ActionDone(Ok(res)));
    assert_eq!(emitted(&step), WorkloadEvent::Success("ze-task".to_owned(), c(C1)));
    let step = delivered(&mut run);
    assert!(matches!(step, RunStep::RemoveWorkdir));
    let step = run.step(RunInput::CleanedUp(Ok(())));
    assert!(matches!(step, RunStep::Finish(Ok(sha)) if sha == c(C1)));
    assert!(run.is_done());
}

#[test]
fn no_change_no_commands() {
    let mut run = workload(vec![action("ze-action", "/bin/ls")]).start_run(c(C1));
    let step = run.step(RunInput::CheckedOut(Ok(c(C1))));
    assert!(matches!(step, RunStep::RemoveWorkdir));
    let step = run.step(RunInput::CleanedUp(Ok(())));
    assert!(matches!(step, RunStep::Finish(Ok(sha)) if sha == c(C1)));
}

#[test]
fn failing_command_fails_run() {
    let mut run = workload(vec![action("ze-action", "/bin/false")]).start_run(CommitId::null());
    run.step(RunInput::CheckedOut(Ok(c(C1))));
    delivered(&mut run);
    let mut cmd = CommandRun::new("ze-task|ze-action".to_owned());
    let (exit, res) = cmd.exited(ProcessExit { code: Some(1) });
    assert!(matches!(exit, WorkloadEvent::ActionExit(_, ProcessExit { code: Some(1) })));
    assert_eq!(res, ActionResult::Failure);
    let step = run.step(RunInput::ActionDone(Ok(res)));
    assert_eq!(
        emitted(&step),
        WorkloadEvent::Failure("ze-task".to_owned(), "ze-task|ze-action".to_owned(), c(C1))
    );
    let step = delivered(&mut run);
    assert!(matches!(
        step,
        RunStep::Finish(Err(GitOpsError::ActionFailed(t, a))) if t == "ze-task" && a == "ze-task|ze-action"
    ));
}

#[test]
fn spawn_error_errors_run() {
    let mut run = workload(vec![action("ze-action", "/no/such/file")]).start_run(CommitId::null());
    run.step(RunInput::CheckedOut(Ok(c(C1))));
    delivered(&mut run);
    let err = GitOpsError::ActionError("No such file or directory (os error 2)".to_owned());
    let step = run.step(RunInput::ActionDone(Err(err)));
    assert_eq!(
        emitted(&step),
        WorkloadEvent::Error(
            "ze-task".to_owned(),
            "Failed to launch action: No such file or directory (os error 2)".to_owned(),
            c(C1)
        )
    );
    let step = delivered(&mut run);
    assert!(matches!(step, RunStep::Finish(Err(GitOpsError::ActionError(_)))));
}

#[test]
fn timeout_fails_run() {
    let mut run = workload(vec![action("ze-action", "sleep")]).start_run(CommitId::null());
    run.step(RunInput::CheckedOut(Ok(c(C1))));
    delivered(&mut run);
    let mut cmd = CommandRun::new("ze-task|ze-action".to_owned());
    let (ev, res) = cmd.timed_out();
    assert_eq!(ev, WorkloadEvent::Timeout("ze-task|ze-action".to_owned()));
    let step = run.step(RunInput::ActionDone(Ok(res)));
    assert!(matches!(emitted(&step), WorkloadEvent::Failure(..)));
}

#[test]
fn force_push_moves_back() {
    let mut run = workload(vec![action("ze-action", "/bin/ls")]).start_run(c(C2));
    let step = run.step(RunInput::CheckedOut(Ok(c(C1))));
    assert_eq!(emitted(&step), WorkloadEvent::Changes("ze-task".to_owned(), c(C2), c(C1)));
    delivered(&mut run);
    run.step(RunInput::ActionDone(Ok(ActionResult::Success)));
    delivered(&mut run);
    let step = run.step(RunInput::CleanedUp(Ok(())));
    assert!(matches!(step, RunStep::Finish(Ok(sha)) if sha == c(C1)));
}

#[test]
fn commands_get_commit_env() {
    let mut run = workload(vec![action("a", "/bin/sh"), action("b", "/bin/sh")])
        .start_run(CommitId::null());
    run.step(RunInput::CheckedOut(Ok(c(C1))));
    for i in 0..2 {
        let env = &run.action(i).config().environment;
        assert!(env.contains(&("KITOPS_SHA".to_owned(), C1.to_owned())));
        assert!(env.contains(&(
            "KITOPS_LAST_SUCCESSFUL_SHA".to_owned(),
            "0000000000000000000000000000000000000000".to_owned()
        )));
    }
    delivered(&mut run);
    let step = run.step(RunInput::ActionDone(Ok(ActionResult::Success)));
    assert!(matches!(&step, RunStep::RunAction(1, name) if name == "ze-task|b"));
}

#[test]
fn first_failure_stops_sequence() {
    let mut run = workload(vec![action("a", "x"), action("b", "y")]).start_run(CommitId::null());
    run.step(RunInput::CheckedOut(Ok(c(C1))));
    delivered(&mut run);
    let step = run.step(RunInput::ActionDone(Ok(ActionResult::Failure)));
    assert_eq!(
        emitted(&step),
        WorkloadEvent::Failure("ze-task".to_owned(), "ze-task|a".to_owned(), c(C1))
    );
}

#[test]
fn no_commands_still_succeeds() {
    let mut run = workload(vec![]).start_run(CommitId::null());
    run.step(RunInput::CheckedOut(Ok(c(C1))));
    let step = delivered(&mut run);
    assert_eq!(emitted(&step), WorkloadEvent::Success("ze-task".to_owned(), c(C1)));
}

#[test]
fn fetch_error_emits_nothing() {
    let mut run = workload(vec![action("a", "x")]).start_run(CommitId::null());
    let step = run.step(RunInput::CheckedOut(Err(GitOpsError::FetchError("refused".to_owned()))));
    assert!(matches!(step, RunStep::Finish(Err(GitOpsError::FetchError(_)))));
    assert!(run.is_done());
}

#[test]
fn refused_announcement_ends_run() {
    let mut run = workload(vec![action("a", "x")]).start_run(CommitId::null());
    run.step(RunInput::CheckedOut(Ok(c(C1))));
    let step = run.step(RunInput::Delivered(Err(GitOpsError::NotifyError("down".to_owned()))));
    assert!(matches!(
        step,
        RunStep::Finish(Err(GitOpsError::NotifyError(m))) if m == "Failed to send event: down"
    ));
}

#[test]
fn one_terminal_event_per_changed_run() {
    let mut run = workload(vec![action("a", "x"), action("b", "y")]).start_run(CommitId::null());
    let mut events = Vec::new();
    let mut step = run.step(RunInput::CheckedOut(Ok(c(C2))));
    let mut results = vec![ActionResult::Success, ActionResult::Success].into_iter();
    loop {
        step = match step {
            RunStep::Emit(e) => {
                events.push(e);
                run.step(RunInput::Delivered(Ok(())))
            }
            RunStep::RunAction(..) => run.step(RunInput::ActionDone(Ok(results.next().unwrap()))),
            RunStep::RemoveWorkdir => run.step(RunInput::CleanedUp(Ok(()))),
            RunStep::Finish(r) => {
                assert!(r.is_ok());
                break;
            }
        }
    }
    let terminal = events
        .iter()
        .filter(|e| {
            matches!(
                e,
                WorkloadEvent::Success(..) | WorkloadEvent::Failure(..) | WorkloadEvent::Error(..)
            )
        })
        .count();
    assert_eq!(terminal, 1);
    assert!(matches!(events[0], WorkloadEvent::Changes(..)));
}

#[test]
fn workload_repo_dir_joins_safe_url() {
    let w = workload(vec![]);
    assert_eq!(w.repo_dir(), "/var/repos/file____tmp_upstream");
    assert_eq!(w.id(), "ze-task");
    assert_eq!(w.interval(), 60_000);
    assert_eq!(w.deadline(1_000), 1_010);
}

#[test]
fn command_output_then_exit() {
    let mut cmd = CommandRun::new("t|a".to_owned());
    let buf = [b'x'; 16];
    assert!(cmd.output(SourceType::StdErr, &buf, 0).is_none());
    let ev = cmd.output(SourceType::StdErr, &buf, 3).unwrap();
    assert_eq!(
        ev,
        WorkloadEvent::ActionOutput("t|a".to_owned(), SourceType::StdErr, b"xxx".to_vec())
    );
    let (exit, res) = cmd.exited(ProcessExit { code: None });
    assert!(matches!(exit, WorkloadEvent::ActionExit(..)));
    assert_eq!(res, ActionResult::Failure);
}
