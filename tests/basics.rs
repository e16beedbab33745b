use kitops::actions::{env_plan, poll_step, Action, PollStep};
use kitops::config::ActionConfig;
use kitops::config::{count_digits, parse_duration_ms};
use kitops::errors::GitOpsError;
use kitops::gix::{remote_tip, safe_url, tracking_ref_exec, DefaultUrlProvider, GitUrl};
use kitops::receiver::{log_line, ProcessExit, SourceType, WorkloadEvent};
use kitops::state::CommitId;
use kitops::text::{decimal, remove_all_exec, split_assignment};
use kitops::utils::Watchdog;

fn config(inherit: bool) -> ActionConfig {
    ActionConfig {
        name: "ze-action".to_owned(),
        entrypoint: "/bin/sh".to_owned(),
        args: vec!["-c".to_owned(), "env".to_owned()],
        environment: vec![("PATH".to_owned(), "/opt/bin".to_owned()), ("X".to_owned(), "1".to_owned())],
        inherit_environment: inherit,
    }
}

#[test]
fn env_plan_keeps_parent_path_first() {
    let plan = env_plan(&config(false), Some("/usr/bin".to_owned()));
    assert!(plan.clear);
    assert_eq!(
        plan.vars,
        vec![
            ("PATH".to_owned(), "/usr/bin".to_owned()),
            ("PATH".to_owned(), "/opt/bin".to_owned()),
            ("X".to_owned(), "1".to_owned()),
        ]
    );
    let plan = env_plan(&config(true), Some("/usr/bin".to_owned()));
    assert!(!plan.clear);
    assert_eq!(plan.vars.len(), 2);
}

#[test]
fn set_env_overrides() {
    let mut a = Action::new(config(false));
    a.set_env("X".to_owned(), "2".to_owned());
    a.set_env("Y".to_owned(), "3".to_owned());
    assert_eq!(a.id(), "ze-action");
    let env = &a.config().environment;
    assert_eq!(env.iter().filter(|p| p.0 == "X").count(), 1);
    assert!(env.contains(&("X".to_owned(), "2".to_owned())));
    assert!(env.contains(&("Y".to_owned(), "3".to_owned())));
}

#[test]
fn fatal_errors() {
    assert!(!GitOpsError::ActionFailed("t".to_owned(), "a".to_owned()).is_fatal());
    assert!(!GitOpsError::FetchError("x".to_owned()).is_fatal());
    assert!(!GitOpsError::ActionError("x".to_owned()).is_fatal());
    assert!(!GitOpsError::NotifyError("x".to_owned()).is_fatal());
    assert!(GitOpsError::WorkDir("x".to_owned()).is_fatal());
    assert!(GitOpsError::SavingState("x".to_owned()).is_fatal());
    assert!(GitOpsError::ConfigMethodConflict.is_fatal());
}

#[test]
fn error_messages() {
    assert_eq!(
        GitOpsError::ActionFailed("t".to_owned(), "t|a".to_owned()).message(),
        "Action failed: t|a in t"
    );
    assert_eq!(
        GitOpsError::GitHubApiError("u".to_owned(), 404, "nope".to_owned()).message(),
        "GitHub API u returned status 404: nope"
    );
    assert_eq!(GitOpsError::ConfigExecutionConflict.message(), "Provide --interval or --once-only");
}

#[test]
fn commit_ids() {
    assert!(CommitId::from_hex("abc").is_none());
    assert!(CommitId::from_hex("E69DE29BB2D1D6434B8B29AE775AD8C2E48C5391").is_none());
    let id = CommitId::from_hex("e69de29bb2d1d6434b8b29ae775ad8c2e48c5391").unwrap();
    assert!(!id.is_null());
    assert_eq!(CommitId::null().to_hex(), "0000000000000000000000000000000000000000");
    assert_ne!(id, CommitId::null());
}

#[test]
fn url_safe_name() {
    let url = GitUrl::parse("https://github.com/bittrance/kitops").unwrap();
    assert_eq!(url.scheme, "https");
    assert_eq!(safe_url(&url), "https___github.com_bittrance_kitops");
    let p = DefaultUrlProvider::new(url);
    assert_eq!(p.safe_url(), "https___github.com_bittrance_kitops");
    assert_eq!(p.auth_url().unwrap().text, "https://github.com/bittrance/kitops");
}

#[test]
fn text_helpers() {
    assert_eq!(decimal(0), "0");
    assert_eq!(decimal(1234567), "1234567");
    assert_eq!(remove_all_exec("/a.git/b.git", ".git"), "/a/b");
    assert_eq!(split_assignment("K=V=W"), Some(("K".to_owned(), "V=W".to_owned())));
    assert_eq!(split_assignment("KV"), None);
}

#[test]
fn watchdog_trips_at_deadline() {
    let w = Watchdog::new(100);
    assert!(!w.poll(99));
    assert!(w.poll(100));
    let w = Watchdog::new(100);
    w.cancel();
    assert!(w.poll(0));
    assert_eq!(w.deadline(), 100);
}

#[test]
fn remote_tip_picks_branch() {
    let c1 = CommitId::from_hex("1111111111111111111111111111111111111111").unwrap();
    let c2 = CommitId::from_hex("2222222222222222222222222222222222222222").unwrap();
    let refs = vec![
        ("HEAD".to_owned(), Some(c1.clone())),
        ("refs/heads/dev".to_owned(), Some(c1.clone())),
        ("refs/heads/main".to_owned(), None),
        ("refs/heads/main".to_owned(), Some(c2.clone())),
    ];
    assert_eq!(remote_tip(&refs, "main"), Some(c2));
    assert_eq!(remote_tip(&refs, "dev"), Some(c1));
    assert_eq!(remote_tip(&refs, "nope"), None);
    assert_eq!(tracking_ref_exec("main"), "refs/heads/main");
}

#[test]
fn log_lines() {
    let c1 = CommitId::from_hex("1111111111111111111111111111111111111111").unwrap();
    let l = log_line(&WorkloadEvent::Changes("t".to_owned(), CommitId::null(), c1.clone()));
    assert_eq!(l.text, "t: New repo @ 1111111111111111111111111111111111111111");
    assert!(!l.to_stderr);
    let l = log_line(&WorkloadEvent::Changes("t".to_owned(), c1.clone(), c1.clone()));
    assert_eq!(
        l.text,
        "t: Updated repo 1111111111111111111111111111111111111111 -> 1111111111111111111111111111111111111111"
    );
    let l = log_line(&WorkloadEvent::ActionOutput(
        "t|a".to_owned(),
        SourceType::StdErr,
        vec![b'h', b'i', 0xff],
    ));
    assert_eq!(l.text, "t|a: hi\u{fffd}");
    assert!(l.to_stderr);
    let l = log_line(&WorkloadEvent::ActionExit("t|a".to_owned(), ProcessExit { code: Some(-3) }));
    assert_eq!(l.text, "t|a: exited with code -3");
    let l = log_line(&WorkloadEvent::Timeout("t|a".to_owned()));
    assert_eq!(l.text, "t|a: took too long");
    let l = log_line(&WorkloadEvent::Error("t".to_owned(), "boom".to_owned(), c1));
    assert_eq!(
        l.text,
        "t: error running actions for 1111111111111111111111111111111111111111: boom"
    );
}

fn now_ms() -> u64 {
    std::time::SystemTime::now()
        .duration_since(std::time::UNIX_EPOCH)
        .unwrap()
        .as_millis() as u64
}

#[test]
fn reach_deadline() {
    let deadline = now_ms() + 30;
    let watchdog = Watchdog::new(deadline);
    while !watchdog.poll(now_ms()) {}
    assert!(now_ms() >= deadline);
}

#[test]
fn cancellation() {
    let deadline = now_ms() + 5_000;
    let watchdog = Watchdog::new(deadline);
    watchdog.cancel();
    while !watchdog.poll(now_ms()) {}
    assert!(now_ms() < deadline);
}

#[test]
fn worker_panic_is_fatal() {
    let e = GitOpsError::WorkerPanic("BOOM!".to_owned());
    assert!(e.is_fatal());
    assert_eq!(e.message(), "Task worker panicked: BOOM!");
}

#[test]
fn duration_digit_limit() {
    assert_eq!(count_digits("1m 2.5s"), 3);
    assert!(parse_duration_ms("18446744073709551615s 1000ms").is_err());
    assert!(parse_duration_ms("18446744073709551615s 0.5s 0.5s").is_err());
    assert_eq!(parse_duration_ms("99999999999ms"), Ok(99_999_999_999));
    assert!(parse_duration_ms("999999999999ms").is_err());
}
