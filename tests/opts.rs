use kitops::config::{
    duration_to_ms, parse_duration_ms, ActionConfig, GitConfig, GitTaskConfig, GithubConfig,
    TaskEntry,
};
use kitops::errors::GitOpsError;
use kitops::opts::CliOptions;

fn opts() -> CliOptions {
    CliOptions {
        state_file: "./state.yaml".to_owned(),
        config_file: None,
        repo_dir: None,
        url: None,
        branch: "main".to_owned(),
        action: None,
        environment: vec![],
        github_app_id: None,
        github_private_key_file: None,
        github_status_context: None,
        interval: None,
        timeout: None,
        once_only: false,
    }
}

#[test]
fn complete_cli_options_no_args() {
    let res = opts().complete(false);
    assert!(matches!(res, Err(GitOpsError::ConfigMethodConflict)));
}

#[test]
fn complete_cli_options_incomplete_args() {
    let mut o = opts();
    o.url = Some("file:///tmp".to_owned());
    let res = o.complete(false);
    assert!(matches!(res, Err(GitOpsError::ConfigMethodConflict)));
}

#[test]
fn complete_cli_options_conflicting_args() {
    let mut o = opts();
    o.config_file = Some("foo.yaml".to_owned());
    o.url = Some("file:///tmp".to_owned());
    let res = o.complete(false);
    assert!(matches!(res, Err(GitOpsError::ConfigMethodConflict)));
}

#[test]
fn once_only_conflicts_with_interval() {
    let mut o = opts();
    o.config_file = Some("foo.yaml".to_owned());
    o.once_only = true;
    o.interval = Some(1_000);
    assert!(matches!(o.complete(false), Err(GitOpsError::ConfigExecutionConflict)));
}

#[test]
fn missing_repo_dir_is_refused() {
    let mut o = opts();
    o.config_file = Some("foo.yaml".to_owned());
    o.repo_dir = Some("/no/such/dir".to_owned());
    assert!(matches!(o.complete(false), Err(GitOpsError::MissingRepoDir(d)) if d == "/no/such/dir"));
    assert!(o.complete(true).is_ok());
}

#[test]
fn single_task_from_options() {
    let mut o = opts();
    o.url = Some("file:///tmp/repo".to_owned());
    o.action = Some("echo hi".to_owned());
    o.environment = vec!["A=1".to_owned(), "B=x=y".to_owned()];
    o.timeout = Some(5_000);
    assert!(o.complete(false).is_ok());
    let task = GitTaskConfig::from_options(&o).unwrap();
    assert_eq!(task.name, "/tmp/repo");
    assert_eq!(task.interval, 60_000);
    assert_eq!(task.timeout, 5_000);
    assert_eq!(task.git.branch, "main");
    assert_eq!(task.actions.len(), 1);
    let a = &task.actions[0];
    assert_eq!(a.name, "echo hi");
    assert_eq!(a.entrypoint, "/bin/sh");
    assert_eq!(a.args, vec!["-c".to_owned(), "echo hi".to_owned()]);
    assert_eq!(
        a.environment,
        vec![("A".to_owned(), "1".to_owned()), ("B".to_owned(), "x=y".to_owned())]
    );
    assert!(!a.inherit_environment);
    assert!(task.github.is_none());
}

#[test]
fn bad_env_var_is_refused() {
    let mut o = opts();
    o.url = Some("file:///tmp/repo".to_owned());
    o.action = Some("true".to_owned());
    o.environment = vec!["A=1".to_owned(), "NOPE".to_owned()];
    assert!(matches!(ActionConfig::from_options(&o), Err(GitOpsError::InvalidEnvVar(v)) if v == "NOPE"));
}

#[test]
fn partial_github_credentials_are_refused() {
    let mut o = opts();
    o.github_app_id = Some("1234".to_owned());
    assert!(matches!(GithubConfig::from_options(&o), Err(GitOpsError::InvalidNotifyConfig)));
    o.github_private_key_file = Some("key.pem".to_owned());
    let g = GithubConfig::from_options(&o).unwrap().unwrap();
    assert_eq!(g.app_id, "1234");
    assert_eq!(g.status_context, None);
}

#[test]
fn bad_url_is_refused() {
    let mut o = opts();
    o.url = Some("".to_owned());
    assert!(matches!(GitConfig::from_options(&o), Err(GitOpsError::InvalidUrl(_))));
}

#[test]
fn defaults() {
    assert_eq!(GitTaskConfig::default_interval(), 60_000);
    assert_eq!(GitTaskConfig::default_timeout(), 3_600_000);
    assert_eq!(GitConfig::default_branch(), "main");
    assert_eq!(GithubConfig::default_context(), Some("kitops".to_owned()));
}

fn entry(interval: Option<&str>, timeout: Option<&str>) -> TaskEntry {
    TaskEntry {
        name: "testo".to_owned(),
        github: None,
        url: "https://github.com/bittrance/kitops".to_owned(),
        branch: None,
        actions: vec![],
        interval: interval.map(str::to_owned),
        timeout: timeout.map(str::to_owned),
    }
}

#[test]
fn parse_gittaskconfig() {
    let config = GitTaskConfig::from_entry(entry(Some("1m 2s"), Some("3s"))).unwrap();
    assert_eq!(config.timeout, 3_000);
    assert_eq!(config.interval, 62_000);
}

#[test]
fn entry_defaults() {
    let config = GitTaskConfig::from_entry(entry(None, None)).unwrap();
    assert_eq!(config.interval, 60_000);
    assert_eq!(config.timeout, 3_600_000);
    assert_eq!(config.git.branch, "main");
    assert_eq!(config.git.url.path, "/bittrance/kitops");
    assert_eq!(config.name, "testo");
}

#[test]
fn entry_with_bad_duration_is_malformed() {
    let res = GitTaskConfig::from_entry(entry(Some("soon"), None));
    assert!(matches!(res, Err(GitOpsError::MalformedConfig(_))));
}

#[test]
fn durations() {
    assert_eq!(parse_duration_ms("10s"), Ok(10_000));
    assert_eq!(parse_duration_ms("1h"), Ok(3_600_000));
    assert_eq!(parse_duration_ms("250ms"), Ok(250));
    assert!(parse_duration_ms("later").is_err());
    assert_eq!(duration_to_ms(2, 1_500_000), Some(2_001));
    assert_eq!(duration_to_ms(u64::MAX, 0), None);
}
