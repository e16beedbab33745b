use kitops::errors::GitOpsError;
use kitops::state::{CommitId, State};
use kitops::task::ScheduledTask;
use kitops::{progress_one_task, Progress, Tick};

const NOW: u64 = 1_700_000_000_000;
const EMPTY_BLOB: &str = "e69de29bb2d1d6434b8b29ae775ad8c2e48c5391";

fn test_task() -> ScheduledTask<()> {
    ScheduledTask::new((), "test".to_owned(), 1_000)
}

#[test]
fn run_eligible_task() {
    let mut tasks = vec![test_task()];
    let progress = progress_one_task(&mut tasks, NOW).unwrap();
    assert!(progress.progress() == Progress::Running);
    assert!(tasks[0].is_running());
    tasks[0].record_result(Ok(CommitId::from_hex(EMPTY_BLOB).unwrap()));
    let progress = progress_one_task(&mut tasks, NOW).unwrap();
    assert!(progress.progress() == Progress::Running);
    assert!(!tasks[0].is_finished());
    let progress = progress_one_task(&mut tasks, NOW).unwrap();
    assert!(progress.progress() == Progress::Idle);
}

#[test]
fn dont_start_ineligible_task() {
    let mut tasks = vec![test_task()];
    tasks[0].set_state(
        State {
            current_sha: CommitId::from_hex(EMPTY_BLOB).unwrap(),
            next_run: NOW + 1_000,
        },
        NOW,
    );
    let progress = progress_one_task(&mut tasks, NOW).unwrap();
    assert!(progress.progress() == Progress::Idle);
}

#[test]
fn dont_pesist_failing_task() {
    let mut tasks = vec![test_task()];
    progress_one_task(&mut tasks, NOW).unwrap();
    tasks[0].record_result(Err(GitOpsError::ActionFailed(
        "ze-task".to_owned(),
        "ze-action".to_owned(),
    )));
    let tick = progress_one_task(&mut tasks, NOW).unwrap();
    assert_eq!(tick, Tick::Dropped(0));
    assert_eq!(tasks[0].state().current_sha, CommitId::null());
}

#[test]
fn first_eligible_task_starts_first() {
    let mut tasks = vec![test_task(), test_task()];
    assert_eq!(progress_one_task(&mut tasks, NOW).unwrap(), Tick::Started(0));
    assert_eq!(tasks[0].state().next_run, NOW + 1_000);
    assert_eq!(progress_one_task(&mut tasks, NOW).unwrap(), Tick::Started(1));
    assert_eq!(progress_one_task(&mut tasks, NOW).unwrap(), Tick::Waiting);
}

#[test]
fn started_task_is_not_started_again() {
    let mut tasks = vec![test_task()];
    assert_eq!(progress_one_task(&mut tasks, NOW).unwrap(), Tick::Started(0));
    // Even once due again, a task with a worker is not started anew.
    assert_eq!(progress_one_task(&mut tasks, NOW + 5_000).unwrap(), Tick::Waiting);
    assert!(tasks[0].is_running());
}

#[test]
fn fatal_run_error_is_handed_back() {
    let mut tasks = vec![test_task()];
    progress_one_task(&mut tasks, NOW).unwrap();
    tasks[0].record_result(Err(GitOpsError::WorkDir("gone".to_owned())));
    let res = progress_one_task(&mut tasks, NOW);
    assert!(matches!(res, Err(GitOpsError::WorkDir(_))));
    assert!(!tasks[0].is_finished());
}

#[test]
fn successful_run_is_finalized() {
    let mut tasks = vec![test_task()];
    progress_one_task(&mut tasks, NOW).unwrap();
    let sha = CommitId::from_hex(EMPTY_BLOB).unwrap();
    tasks[0].record_result(Ok(sha.clone()));
    assert_eq!(progress_one_task(&mut tasks, NOW).unwrap(), Tick::Finalized(0));
    assert_eq!(tasks[0].state().current_sha, sha);
}

#[test]
fn no_tasks_is_idle() {
    let mut tasks: Vec<ScheduledTask<()>> = Vec::new();
    assert_eq!(progress_one_task(&mut tasks, NOW).unwrap(), Tick::Idle);
}

#[test]
fn idle_tick_stops_once_only_loop() {
    assert_eq!(kitops::loop_move(Tick::Idle, true), kitops::LoopMove::Stop);
    assert_eq!(kitops::loop_move(Tick::Idle, false), kitops::LoopMove::Sleep);
    assert_eq!(kitops::loop_move(Tick::Waiting, true), kitops::LoopMove::Continue);
    assert_eq!(kitops::loop_move(Tick::Started(0), false), kitops::LoopMove::Continue);
}
