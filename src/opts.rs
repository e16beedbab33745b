use vstd::prelude::*;

use crate::config::{ActionConfig, GitConfig, GitTaskConfig, GithubConfig};
use crate::errors::GitOpsError;
use crate::gix::{gix_parsed, url_parts, GitUrl};
use crate::text::split_assignment;

verus! {

/// The command line. Durations are in milliseconds.
#[derive(Debug, Clone)]
pub struct CliOptions {
    pub state_file: String,
    pub config_file: Option<String>,
    pub repo_dir: Option<String>,
    pub url: Option<String>,
    pub branch: String,
    pub action: Option<String>,
    pub environment: Vec<String>,
    pub github_app_id: Option<String>,
    pub github_private_key_file: Option<String>,
    pub github_status_context: Option<String>,
    pub interval: Option<u64>,
    pub timeout: Option<u64>,
    pub once_only: bool,
}

/// The branch followed when none is named.
pub open spec fn default_branch() -> Seq<char> {
    "main"@
}

impl CliOptions {
    /// Tasks come from a file, or from `--url` and `--action`, never both.
    pub open spec fn method_conflict(&self) -> bool {
        if self.config_file is Some {
            self.url is Some || self.branch@ != default_branch() || self.action is Some
                || self.environment@.len() > 0
        } else {
            self.url is None || self.action is None
        }
    }

    /// Checks that the options fit together. `repo_dir_exists` tells whether
    /// the directory named by `--repo-dir` exists (it is not looked at when
    /// none is named).
    pub fn complete(&self, repo_dir_exists: bool) -> (r: Result<(), GitOpsError>)
        ensures
            self.method_conflict() ==> r matches Err(GitOpsError::ConfigMethodConflict),
            !self.method_conflict() && self.once_only && self.interval is Some ==> r matches Err(
                GitOpsError::ConfigExecutionConflict,
            ),
            !self.method_conflict() && !(self.once_only && self.interval is Some) ==> (match self.repo_dir {
                Some(d) => if repo_dir_exists {
                    r is Ok
                } else {
                    r matches Err(GitOpsError::MissingRepoDir(m)) && m@ == d@
                },
                None => r is Ok,
            }),
    {
        let main = String::from_str("main");
        if self.config_file.is_some() {
            if self.url.is_some() || self.branch != main || self.action.is_some()
                || self.environment.len() > 0 {
                return Err(GitOpsError::ConfigMethodConflict);
            }
        } else if self.url.is_none() || self.action.is_none() {
            return Err(GitOpsError::ConfigMethodConflict);
        }
        if self.once_only && self.interval.is_some() {
            return Err(GitOpsError::ConfigExecutionConflict);
        }
        match &self.repo_dir {
            Some(dir) => {
                if !repo_dir_exists {
                    return Err(GitOpsError::MissingRepoDir(dir.clone()));
                }
            },
            None => {},
        }
        Ok(())
    }
}

/// Every entry of `env` holds a `=`.
pub open spec fn all_assignments(env: Seq<String>) -> bool {
    forall|i: int| 0 <= i < env.len() ==> (#[trigger] env[i])@.contains('=')
}

/// `c` is the single command that `opts` describes: `--action` run by
/// `/bin/sh -c`, with the `--environment` assignments split at their first
/// `=`, in order, and nothing inherited.
pub open spec fn action_from_options(opts: CliOptions, c: ActionConfig) -> bool {
    &&& c.name == opts.action.unwrap()
    &&& c.entrypoint@ == "/bin/sh"@
    &&& c.args@.len() == 2 && c.args@[0]@ == "-c"@ && c.args@[1] == opts.action.unwrap()
    &&& !c.inherit_environment
    &&& c.environment@.len() == opts.environment@.len()
    &&& forall|i: int|
        0 <= i < c.environment@.len() ==> opts.environment@[i]@ == (
        #[trigger] c.environment@[i]).0@ + seq!['='] + c.environment@[i].1@
            && !c.environment@[i].0@.contains('=')
}

/// `g` is the GitHub App that `opts` names, when it names both its id and
/// its key file.
pub open spec fn github_from_options(opts: CliOptions, g: Option<GithubConfig>) -> bool {
    match (opts.github_app_id, opts.github_private_key_file) {
        (None, None) => g is None,
        (Some(a), Some(k)) => g matches Some(c) && c.app_id == a && c.private_key_file == k
            && c.status_context == opts.github_status_context,
        _ => false,
    }
}

impl ActionConfig {
    /// The single command given by `--action`, run by `/bin/sh -c`, with the
    /// `--environment` assignments in order.
    pub fn from_options(opts: &CliOptions) -> (r: Result<ActionConfig, GitOpsError>)
        requires
            opts.action is Some,
        ensures
            r is Ok <==> all_assignments(opts.environment@),
            r matches Err(e) ==> exists|i: int|
                0 <= i < opts.environment@.len() && !(#[trigger] opts.environment@[i])@.contains(
                    '=',
                ) && (forall|k: int| 0 <= k < i ==> (#[trigger] opts.environment@[k])@.contains('='))
                    && e == GitOpsError::InvalidEnvVar(opts.environment@[i]),
            r matches Ok(c) ==> action_from_options(*opts, c),
    {
        let mut environment: Vec<(String, String)> = Vec::new();
        let mut i: usize = 0;
        while i < opts.environment.len()
            invariant
                i <= opts.environment@.len(),
                forall|k: int| 0 <= k < i ==> (#[trigger] opts.environment@[k])@.contains('='),
                environment@.len() == i,
                forall|k: int|
                    0 <= k < i ==> opts.environment@[k]@ == (
                    #[trigger] environment@[k]).0@ + seq!['='] + environment@[k].1@
                        && !environment@[k].0@.contains('='),
            decreases opts.environment@.len() - i,
        {
            match split_assignment(opts.environment[i].as_str()) {
                Some(p) => {
                    environment.push(p);
                },
                None => {
                    return Err(GitOpsError::InvalidEnvVar(opts.environment[i].clone()));
                },
            }
            i = i + 1;
        }
        let action = match &opts.action {
            Some(a) => a.clone(),
            None => String::new(),
        };
        let mut args: Vec<String> = Vec::new();
        args.push(String::from_str("-c"));
        args.push(action.clone());
        Ok(
            ActionConfig {
                name: action,
                entrypoint: String::from_str("/bin/sh"),
                args,
                environment,
                inherit_environment: false,
            },
        )
    }
}

impl GithubConfig {
    /// The GitHub App given on the command line, if any: its id and key file
    /// come together or not at all.
    pub fn from_options(opts: &CliOptions) -> (r: Result<Option<GithubConfig>, GitOpsError>)
        ensures
            r is Ok <==> (opts.github_app_id is Some <==> opts.github_private_key_file is Some),
            r matches Ok(g) ==> github_from_options(*opts, g),
            r matches Err(e) ==> e is InvalidNotifyConfig,
    {
        match (&opts.github_app_id, &opts.github_private_key_file) {
            (None, None) => Ok(None),
            (Some(app_id), Some(key)) => {
                let status_context = match &opts.github_status_context {
                    Some(c) => Some(c.clone()),
                    None => None,
                };
                Ok(
                    Some(
                        GithubConfig {
                            app_id: app_id.clone(),
                            private_key_file: key.clone(),
                            status_context,
                        },
                    ),
                )
            },
            _ => Err(GitOpsError::InvalidNotifyConfig),
        }
    }
}

impl GitConfig {
    /// The repository and branch given on the command line.
    pub fn from_options(opts: &CliOptions) -> (r: Result<GitConfig, GitOpsError>)
        requires
            opts.url is Some,
        ensures
            r is Ok <==> gix_parsed(opts.url.unwrap()@) is Some,
            r matches Ok(c) ==> gix_parsed(opts.url.unwrap()@) == Some(url_parts(c.url))
                && c.branch == opts.branch,
            r matches Err(e) ==> e is InvalidUrl,
    {
        let url = match &opts.url {
            Some(u) => GitUrl::parse(u.as_str()),
            None => GitUrl::parse(""),
        };
        match url {
            Ok(url) => Ok(GitConfig { url, branch: opts.branch.clone() }),
            Err(e) => Err(e),
        }
    }
}

impl GitTaskConfig {
    /// The single task that the command line describes. It is named after
    /// the path of its repository.
    pub fn from_options(opts: &CliOptions) -> (r: Result<GitTaskConfig, GitOpsError>)
        requires
            opts.url is Some,
            opts.action is Some,
        ensures
            gix_parsed(opts.url.unwrap()@) is None ==> r matches Err(GitOpsError::InvalidUrl(_)),
            gix_parsed(opts.url.unwrap()@) is Some && !all_assignments(opts.environment@)
                ==> r matches Err(GitOpsError::InvalidEnvVar(_)),
            gix_parsed(opts.url.unwrap()@) is Some && all_assignments(opts.environment@) && !(
            opts.github_app_id is Some <==> opts.github_private_key_file is Some) ==> r matches Err(
                GitOpsError::InvalidNotifyConfig,
            ),
            r is Ok <==> gix_parsed(opts.url.unwrap()@) is Some && all_assignments(
                opts.environment@,
            ) && (opts.github_app_id is Some <==> opts.github_private_key_file is Some),
            r matches Ok(c) ==> {
                &&& gix_parsed(opts.url.unwrap()@) == Some(url_parts(c.git.url))
                &&& c.name == c.git.url.path
                &&& c.git.branch == opts.branch
                &&& c.actions@.len() == 1
                &&& action_from_options(*opts, c.actions@[0])
                &&& github_from_options(*opts, c.github)
                &&& c.interval == match opts.interval {
                    Some(v) => v,
                    None => 60_000,
                }
                &&& c.timeout == match opts.timeout {
                    Some(v) => v,
                    None => 3_600_000,
                }
            },
    {
        let url = match &opts.url {
            Some(u) => GitUrl::parse(u.as_str()),
            None => GitUrl::parse(""),
        };
        let url = match url {
            Ok(u) => u,
            Err(e) => {
                return Err(e);
            },
        };
        let action = match ActionConfig::from_options(opts) {
            Ok(a) => a,
            Err(e) => {
                return Err(e);
            },
        };
        let github = match GithubConfig::from_options(opts) {
            Ok(g) => g,
            Err(e) => {
                return Err(e);
            },
        };
        let git = match GitConfig::from_options(opts) {
            Ok(g) => g,
            Err(e) => {
                return Err(e);
            },
        };
        let mut actions: Vec<ActionConfig> = Vec::new();
        actions.push(action);
        let interval = match opts.interval {
            Some(v) => v,
            None => GitTaskConfig::default_interval(),
        };
        let timeout = match opts.timeout {
            Some(v) => v,
            None => GitTaskConfig::default_timeout(),
        };
        Ok(
            GitTaskConfig {
                name: git.url.path.clone(),
                github,
                git,
                actions,
                interval,
                timeout,
            },
        )
    }
}

} // verus!
