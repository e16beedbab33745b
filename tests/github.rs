use kitops::config::GithubConfig;
use kitops::errors::GitOpsError;
use kitops::github::{
    access_token_url, check_status_permission, installation_url, status_update, status_url,
    GitHubStatus, GithubUrlProvider,
};
use kitops::gix::GitUrl;
use kitops::receiver::WorkloadEvent;
use kitops::state::CommitId;

const SHA1: &str = "e69de29bb2d1d6434b8b29ae775ad8c2e48c5391";

fn config() -> GithubConfig {
    GithubConfig {
        app_id: "1234".to_owned(),
        private_key_file: "ze-key".to_owned(),
        status_context: Some("ze-context".to_owned()),
    }
}

#[test]
fn github_url_provider_slug() {
    let url = GitUrl::parse("https://github.com/bittrance/kitops.git").unwrap();
    let provider = GithubUrlProvider::new(url, &config());
    assert_eq!(provider.repo_slug(), "bittrance/kitops");
}

#[test]
fn github_url_provider_refuses_http_on_auth() {
    let url = GitUrl::parse("http://some.site/bittrance/kitops").unwrap();
    let provider = GithubUrlProvider::new(url, &config());
    assert!(matches!(
        provider.require_https(),
        Err(GitOpsError::GitHubAuthNonHttpsUrl(_))
    ));
}

#[test]
fn github_url_provider_accepts_https() {
    let url = GitUrl::parse("https://github.com/bittrance/kitops").unwrap();
    let provider = GithubUrlProvider::new(url, &config());
    assert!(provider.require_https().is_ok());
    assert_eq!(provider.repo_slug(), "bittrance/kitops");
}

#[test]
fn auth_url_carries_token() {
    let url = GitUrl::parse("https://github.com/bittrance/kitops").unwrap();
    let provider = GithubUrlProvider::new(url, &config());
    let auth = provider.auth_url_with("s3cr3t".to_owned());
    assert_eq!(auth.user.as_deref(), Some("x-access-token"));
    assert_eq!(auth.password.as_deref(), Some("s3cr3t"));
    assert_eq!(auth.path, "/bittrance/kitops");
}

#[test]
fn status_for_changes_is_pending() {
    let prev = CommitId::null();
    let new = CommitId::from_hex(SHA1).unwrap();
    let u = status_update(&WorkloadEvent::Changes("ze-task".to_owned(), prev, new.clone())).unwrap();
    assert_eq!(u.status, GitHubStatus::Pending);
    assert_eq!(u.sha, new);
    assert_eq!(
        u.description,
        "running ze-task [last success 0000000000000000000000000000000000000000]"
    );
    assert_eq!(u.status.as_str(), "pending");
}

#[test]
fn status_for_closing_events() {
    let new = CommitId::from_hex(SHA1).unwrap();
    let s = status_update(&WorkloadEvent::Success("t".to_owned(), new.clone())).unwrap();
    assert_eq!(s.status, GitHubStatus::Success);
    assert_eq!(s.description, "t succeeded");
    let f = status_update(&WorkloadEvent::Failure("t".to_owned(), "t|a".to_owned(), new.clone()))
        .unwrap();
    assert_eq!(f.status, GitHubStatus::Failure);
    assert_eq!(f.description, "t failed on action t|a");
    let e = status_update(&WorkloadEvent::Error("t".to_owned(), "boom".to_owned(), new)).unwrap();
    assert_eq!(e.status, GitHubStatus::Error);
    assert_eq!(e.description, "t errored on action boom");
    assert!(status_update(&WorkloadEvent::Timeout("t|a".to_owned())).is_none());
}

#[test]
fn api_urls() {
    assert_eq!(
        installation_url("bittrance/kitops"),
        "https://api.github.com/repos/bittrance/kitops/installation"
    );
    assert_eq!(
        access_token_url(42),
        "https://api.github.com/app/installations/42/access_tokens"
    );
    assert_eq!(
        status_url("o/r", &CommitId::from_hex(SHA1).unwrap()),
        format!("https://api.github.com/repos/o/r/statuses/{}", SHA1)
    );
}

#[test]
fn status_permission_must_be_write() {
    assert!(check_status_permission(Some("write")).is_ok());
    assert!(matches!(
        check_status_permission(Some("read")),
        Err(GitOpsError::GitHubPermissionsError)
    ));
    assert!(matches!(check_status_permission(None), Err(GitOpsError::GitHubPermissionsError)));
}
