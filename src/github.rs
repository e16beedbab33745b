use vstd::prelude::*;

use crate::config::GithubConfig;
use crate::errors::GitOpsError;
use crate::gix::{safe_text, safe_url, GitUrl};
use crate::receiver::WorkloadEvent;
use crate::state::CommitId;
use crate::text::{
    concat2, concat3, decimal, decimal_digits, drop_first_char, remove_all, remove_all_exec,
};

verus! {

/// The `owner/repo` slug of a repository path: every `.git` taken out, then
/// the leading character (the `/`) dropped.
pub open spec fn slug_of(path: Seq<char>) -> Seq<char> {
    let r = remove_all(path, ".git"@);
    if r.len() == 0 {
        r
    } else {
        r.subrange(1, r.len() as int)
    }
}

/// Hands out a location on GitHub together with the credentials of a GitHub
/// App; fetching from it takes an installation access token.
#[derive(Debug, Clone)]
pub struct GithubUrlProvider {
    url: GitUrl,
    app_id: String,
    private_key_file: String,
}

impl GithubUrlProvider {
    pub closed spec fn spec_url(&self) -> GitUrl {
        self.url
    }

    pub closed spec fn spec_app_id(&self) -> Seq<char> {
        self.app_id@
    }

    pub closed spec fn spec_private_key_file(&self) -> Seq<char> {
        self.private_key_file@
    }

    pub fn new(url: GitUrl, config: &GithubConfig) -> (r: GithubUrlProvider)
        ensures
            r.spec_url() == url,
            r.spec_app_id() == config.app_id@,
            r.spec_private_key_file() == config.private_key_file@,
    {
        GithubUrlProvider {
            url,
            app_id: config.app_id.clone(),
            private_key_file: config.private_key_file.clone(),
        }
    }

    pub fn url(&self) -> (r: &GitUrl)
        ensures
            *r == self.spec_url(),
    {
        &self.url
    }

    pub fn app_id(&self) -> (r: &String)
        ensures
            r@ == self.spec_app_id(),
    {
        &self.app_id
    }

    pub fn private_key_file(&self) -> (r: &String)
        ensures
            r@ == self.spec_private_key_file(),
    {
        &self.private_key_file
    }

    /// The `owner/repo` slug of the repository.
    pub fn repo_slug(&self) -> (r: String)
        ensures
            r@ == slug_of(self.spec_url().path@),
    {
        let stripped = remove_all_exec(self.url.path.as_str(), ".git");
        drop_first_char(stripped.as_str())
    }

    pub fn safe_url(&self) -> (r: String)
        ensures
            r@ == safe_text(self.spec_url().text@),
    {
        safe_url(&self.url)
    }

    /// Tokens are only ever sent over https: any other location is refused
    /// before credentials are asked for.
    pub fn require_https(&self) -> (r: Result<(), GitOpsError>)
        ensures
            r is Ok <==> self.spec_url().scheme@ == "https"@,
            r matches Err(e) ==> (e matches GitOpsError::GitHubAuthNonHttpsUrl(t) && t@
                == self.spec_url().text@),
    {
        if self.url.is_https() {
            Ok(())
        } else {
            Err(GitOpsError::GitHubAuthNonHttpsUrl(self.url.text.clone()))
        }
    }

    /// The location to fetch from with an installation access token.
    pub fn auth_url_with(&self, access_token: String) -> (r: GitUrl)
        ensures
            r.user matches Some(u) && u@ == "x-access-token"@,
            r.password == Some(access_token),
            r.scheme == self.spec_url().scheme,
            r.host == self.spec_url().host,
            r.path == self.spec_url().path,
            r.text == self.spec_url().text,
    {
        self.url.with_credentials(String::from_str("x-access-token"), access_token)
    }
}

/// Where GitHub tells which installation of the App covers a repository.
pub fn installation_url(repo_slug: &str) -> (r: String)
    ensures
        r@ == "https://api.github.com/repos/"@ + repo_slug@ + "/installation"@,
{
    concat3("https://api.github.com/repos/", repo_slug, "/installation")
}

/// Where an access token for an installation is asked for.
pub fn access_token_url(installation_id: u64) -> (r: String)
    ensures
        r@ == "https://api.github.com/app/installations/"@ + decimal_digits(installation_id as nat)
            + "/access_tokens"@,
{
    let id = decimal(installation_id);
    concat3("https://api.github.com/app/installations/", id.as_str(), "/access_tokens")
}

/// Where the statuses of a commit are posted.
pub fn status_url(repo_slug: &str, sha: &CommitId) -> (r: String)
    ensures
        r@ == "https://api.github.com/repos/"@ + repo_slug@ + "/statuses/"@ + sha@,
{
    let hex = sha.to_hex();
    let mut s = concat3("https://api.github.com/repos/", repo_slug, "/statuses/");
    s.append(hex.as_str());
    s
}

/// An installation may only be used when it can write commit statuses:
/// `statuses` is the level of that permission, if granted.
pub fn check_status_permission(statuses: Option<&str>) -> (r: Result<(), GitOpsError>)
    ensures
        r is Ok <==> (statuses matches Some(s) && s@ == "write"@),
        r matches Err(e) ==> e is GitHubPermissionsError,
{
    match statuses {
        Some(s) => {
            let level = String::from_str(s);
            let write = String::from_str("write");
            if level == write {
                Ok(())
            } else {
                Err(GitOpsError::GitHubPermissionsError)
            }
        },
        None => Err(GitOpsError::GitHubPermissionsError),
    }
}

/// The commit states that GitHub knows.
#[derive(Debug, Clone, Copy, PartialEq, Eq, Structural)]
pub enum GitHubStatus {
    Pending,
    Success,
    Failure,
    Error,
}

impl GitHubStatus {
    /// The name GitHub's API uses.
    pub fn as_str(&self) -> (r: &'static str)
        ensures
            r@ == match *self {
                GitHubStatus::Pending => "pending"@,
                GitHubStatus::Success => "success"@,
                GitHubStatus::Failure => "failure"@,
                GitHubStatus::Error => "error"@,
            },
    {
        match self {
            GitHubStatus::Pending => "pending",
            GitHubStatus::Success => "success",
            GitHubStatus::Failure => "failure",
            GitHubStatus::Error => "error",
        }
    }
}

/// A commit status to post.
#[derive(Debug, Clone)]
pub struct StatusUpdate {
    pub status: GitHubStatus,
    pub sha: CommitId,
    pub description: String,
}

/// The commit status that an event calls for: pending when a change is
/// announced, then success, failure or error as the run closes; none for the
/// events of single commands.
pub fn status_update(event: &WorkloadEvent) -> (r: Option<StatusUpdate>)
    ensures
        match *event {
            WorkloadEvent::Changes(name, prev, new) => r matches Some(u) && u.status
                == GitHubStatus::Pending && u.sha@ == new@ && u.description@ == "running "@ + name@
                + " [last success "@ + prev@ + "]"@,
            WorkloadEvent::Success(name, new) => r matches Some(u) && u.status
                == GitHubStatus::Success && u.sha@ == new@ && u.description@ == name@
                + " succeeded"@,
            WorkloadEvent::Failure(task, action, new) => r matches Some(u) && u.status
                == GitHubStatus::Failure && u.sha@ == new@ && u.description@ == task@
                + " failed on action "@ + action@,
            WorkloadEvent::Error(task, message, new) => r matches Some(u) && u.status
                == GitHubStatus::Error && u.sha@ == new@ && u.description@ == task@
                + " errored on action "@ + message@,
            _ => r is None,
        },
{
    match event {
        WorkloadEvent::Changes(name, prev, new) => {
            let prev_hex = prev.to_hex();
            let mut d = concat3("running ", name.as_str(), " [last success ");
            d.append(prev_hex.as_str());
            d.append("]");
            Some(StatusUpdate { status: GitHubStatus::Pending, sha: new.copied(), description: d })
        },
        WorkloadEvent::Success(name, new) => Some(
            StatusUpdate {
                status: GitHubStatus::Success,
                sha: new.copied(),
                description: concat2(name.as_str(), " succeeded"),
            },
        ),
        WorkloadEvent::Failure(task, action, new) => Some(
            StatusUpdate {
                status: GitHubStatus::Failure,
                sha: new.copied(),
                description: concat3(task.as_str(), " failed on action ", action.as_str()),
            },
        ),
        WorkloadEvent::Error(task, message, new) => Some(
            StatusUpdate {
                status: GitHubStatus::Error,
                sha: new.copied(),
                description: concat3(task.as_str(), " errored on action ", message.as_str()),
            },
        ),
        _ => None,
    }
}

} // verus!
