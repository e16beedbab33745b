use vstd::prelude::*;

use crate::text::{concat2, concat4, decimal, decimal_digits};

verus! {

/// Everything that can go wrong in the agent. Causes reported by outside
/// collaborators (I/O, Git, HTTP, YAML) are carried as their rendered messages.
#[derive(Debug, Clone)]
pub enum GitOpsError {
    InvalidUrl(String),
    InvalidEnvVar(String),
    MissingConfig(String),
    MalformedConfig(String),
    ConfigMethodConflict,
    ConfigExecutionConflict,
    InvalidNotifyConfig,
    MissingRepoDir(String),
    CreateRepoDir(String),
    StateFile(String),
    LoadingState(String),
    SavingState(String),
    SerdeState(String),
    WorkDir(String),
    InitRepo(String),
    FetchError(String),
    OpenRepo(String),
    ActionFailed(String, String),
    NotifyError(String),
    ActionError(String),
    GitHubMissingPrivateKeyFile(String),
    GitHubBadPrivateKey(String),
    GitHubApiError(String, u16, String),
    GitHubNetworkError(String),
    GitHubPermissionsError,
    GitHubAuthNonHttpsUrl(String),
    WorkerPanic(String),
}

/// Fatal errors abort the agent: configuration, state-file and work-directory
/// failures, and a worker that panicked. Everything that concerns a single
/// run (Git, commands, watchers, the hosted provider) only fails that run.
pub open spec fn fatal(e: GitOpsError) -> bool {
    match e {
        GitOpsError::InvalidUrl(_) | GitOpsError::InvalidEnvVar(_) | GitOpsError::MissingConfig(_)
        | GitOpsError::MalformedConfig(_) | GitOpsError::ConfigMethodConflict
        | GitOpsError::ConfigExecutionConflict | GitOpsError::InvalidNotifyConfig
        | GitOpsError::MissingRepoDir(_) | GitOpsError::CreateRepoDir(_)
        | GitOpsError::StateFile(_) | GitOpsError::LoadingState(_)
        | GitOpsError::SavingState(_) | GitOpsError::SerdeState(_)
        | GitOpsError::WorkDir(_) | GitOpsError::WorkerPanic(_) => true,
        _ => false,
    }
}

impl GitOpsError {
    pub fn is_fatal(&self) -> (r: bool)
        ensures
            r == fatal(*self),
    {
        match self {
            GitOpsError::InvalidUrl(_) | GitOpsError::InvalidEnvVar(_) | GitOpsError::MissingConfig(_)
            | GitOpsError::MalformedConfig(_) | GitOpsError::ConfigMethodConflict
            | GitOpsError::ConfigExecutionConflict | GitOpsError::InvalidNotifyConfig
            | GitOpsError::MissingRepoDir(_) | GitOpsError::CreateRepoDir(_)
            | GitOpsError::StateFile(_) | GitOpsError::LoadingState(_)
            | GitOpsError::SavingState(_) | GitOpsError::SerdeState(_)
            | GitOpsError::WorkDir(_) | GitOpsError::WorkerPanic(_) => true,
            _ => false,
        }
    }
}

/// The human-readable description of an error.
pub open spec fn error_text(e: GitOpsError) -> Seq<char> {
    match e {
        GitOpsError::InvalidUrl(a) => "Failed to parse Git repo URL: "@ + a@,
        GitOpsError::InvalidEnvVar(a) => "Failed to parse environment variable: "@ + a@,
        GitOpsError::MissingConfig(a) => "Config file not found: "@ + a@,
        GitOpsError::MalformedConfig(a) => "Malformed configuration: "@ + a@,
        GitOpsError::ConfigMethodConflict => "Provide --url and --action or --config-file"@,
        GitOpsError::ConfigExecutionConflict => "Provide --interval or --once-only"@,
        GitOpsError::InvalidNotifyConfig => "Notify section needs github_repo_slug and github_context"@,
        GitOpsError::MissingRepoDir(a) => "Cannot find directory to store repositories: "@ + a@,
        GitOpsError::CreateRepoDir(a) => "Failed to create directory to store repositories: "@ + a@,
        GitOpsError::StateFile(a) => "Failed to open/create state file: "@ + a@,
        GitOpsError::LoadingState(a) => "Failed to read state: "@ + a@,
        GitOpsError::SavingState(a) => "Failed to write state: "@ + a@,
        GitOpsError::SerdeState(a) => "Failed to de/serialize state: "@ + a@,
        GitOpsError::WorkDir(a) => "Failed to create or locate workdir: "@ + a@,
        GitOpsError::InitRepo(a) => "Failed to create new repository: "@ + a@,
        GitOpsError::FetchError(a) => "Failed to connect to remote: "@ + a@,
        GitOpsError::OpenRepo(a) => "Failed to open repository: "@ + a@,
        GitOpsError::NotifyError(a) => "Failed to send event: "@ + a@,
        GitOpsError::ActionError(a) => "Failed to launch action: "@ + a@,
        GitOpsError::GitHubMissingPrivateKeyFile(a) => "Missing private key file: "@ + a@,
        GitOpsError::GitHubBadPrivateKey(a) => "Malformed private RS256 key: "@ + a@,
        GitOpsError::GitHubNetworkError(a) => "Failed to connect to GitHub API: "@ + a@,
        GitOpsError::GitHubPermissionsError => "GitHub App is installed but does not have write permissions for commit statuses"@,
        GitOpsError::GitHubAuthNonHttpsUrl(a) => "GitHub authentication needs an https URL: "@ + a@,
        GitOpsError::WorkerPanic(a) => "Task worker panicked: "@ + a@,
        GitOpsError::ActionFailed(task, action) => "Action failed: "@ + action@ + " in "@ + task@,
        GitOpsError::GitHubApiError(url, status, body) => "GitHub API "@ + url@ + " returned status "@ + decimal_digits(status as nat) + ": "@ + body@,
    }
}

impl GitOpsError {
    /// Describes the error for people.
    pub fn message(&self) -> (r: String)
        ensures
            r@ == error_text(*self),
    {
        match self {
            GitOpsError::InvalidUrl(a) => concat2("Failed to parse Git repo URL: ", a.as_str()),
            GitOpsError::InvalidEnvVar(a) => concat2("Failed to parse environment variable: ", a.as_str()),
            GitOpsError::MissingConfig(a) => concat2("Config file not found: ", a.as_str()),
            GitOpsError::MalformedConfig(a) => concat2("Malformed configuration: ", a.as_str()),
            GitOpsError::ConfigMethodConflict => String::from_str("Provide --url and --action or --config-file"),
            GitOpsError::ConfigExecutionConflict => String::from_str("Provide --interval or --once-only"),
            GitOpsError::InvalidNotifyConfig => String::from_str("Notify section needs github_repo_slug and github_context"),
            GitOpsError::MissingRepoDir(a) => concat2("Cannot find directory to store repositories: ", a.as_str()),
            GitOpsError::CreateRepoDir(a) => concat2("Failed to create directory to store repositories: ", a.as_str()),
            GitOpsError::StateFile(a) => concat2("Failed to open/create state file: ", a.as_str()),
            GitOpsError::LoadingState(a) => concat2("Failed to read state: ", a.as_str()),
            GitOpsError::SavingState(a) => concat2("Failed to write state: ", a.as_str()),
            GitOpsError::SerdeState(a) => concat2("Failed to de/serialize state: ", a.as_str()),
            GitOpsError::WorkDir(a) => concat2("Failed to create or locate workdir: ", a.as_str()),
            GitOpsError::InitRepo(a) => concat2("Failed to create new repository: ", a.as_str()),
            GitOpsError::FetchError(a) => concat2("Failed to connect to remote: ", a.as_str()),
            GitOpsError::OpenRepo(a) => concat2("Failed to open repository: ", a.as_str()),
            GitOpsError::NotifyError(a) => concat2("Failed to send event: ", a.as_str()),
            GitOpsError::ActionError(a) => concat2("Failed to launch action: ", a.as_str()),
            GitOpsError::GitHubMissingPrivateKeyFile(a) => concat2("Missing private key file: ", a.as_str()),
            GitOpsError::GitHubBadPrivateKey(a) => concat2("Malformed private RS256 key: ", a.as_str()),
            GitOpsError::GitHubNetworkError(a) => concat2("Failed to connect to GitHub API: ", a.as_str()),
            GitOpsError::GitHubPermissionsError => String::from_str("GitHub App is installed but does not have write permissions for commit statuses"),
            GitOpsError::GitHubAuthNonHttpsUrl(a) => concat2("GitHub authentication needs an https URL: ", a.as_str()),
            GitOpsError::WorkerPanic(a) => concat2("Task worker panicked: ", a.as_str()),
            GitOpsError::ActionFailed(task, action) => concat4("Action failed: ", action.as_str(), " in ", task.as_str()),
            GitOpsError::GitHubApiError(url, status, body) => {
                let code = decimal(*status as u64);
                let mut s = concat4("GitHub API ", url.as_str(), " returned status ", code.as_str());
                s.append(": ");
                s.append(body.as_str());
                s
            },
        }
    }
}

} // verus!
