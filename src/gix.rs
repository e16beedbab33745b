use vstd::prelude::*;

use crate::errors::GitOpsError;
use crate::state::CommitId;
use crate::text::{concat2, replace_char};

verus! {

/// A parsed Git location, as plain text: its scheme (`https`, `file`, ...),
/// credentials and host if any, path, and the canonical rendering of the
/// location as it was read.
#[derive(Debug, Clone)]
pub struct GitUrl {
    pub scheme: String,
    pub user: Option<String>,
    pub password: Option<String>,
    pub host: Option<String>,
    pub path: String,
    pub text: String,
}

pub open spec fn opt_chars(o: Option<String>) -> Option<Seq<char>> {
    match o {
        Some(s) => Some(s@),
        None => None,
    }
}

/// What gix makes of a location: scheme, user, password, host, path and
/// canonical text, or nothing where it refuses the location.
pub uninterp spec fn gix_parsed(s: Seq<char>) -> Option<
    (Seq<char>, Option<Seq<char>>, Option<Seq<char>>, Option<Seq<char>>, Seq<char>, Seq<char>),
>;

/// The parts of `u` in the shape that `gix_parsed` yields.
pub open spec fn url_parts(u: GitUrl) -> (
    Seq<char>,
    Option<Seq<char>>,
    Option<Seq<char>>,
    Option<Seq<char>>,
    Seq<char>,
    Seq<char>,
) {
    (u.scheme@, opt_chars(u.user), opt_chars(u.password), opt_chars(u.host), u.path@, u.text@)
}

/// Relies on gix's `Url::try_from(&str)` (gix-url's `parse`) to read a Git
/// location, and on `Scheme::as_str` and `Url::to_bstring` to render its
/// scheme and the whole location; the error is gix's message.
#[verifier::external_body]
fn parse_with_gix(s: &str) -> (r: Result<GitUrl, String>)
    ensures
        r is Ok <==> gix_parsed(s@) is Some,
        r matches Ok(u) ==> gix_parsed(s@) == Some(url_parts(u)),
{
    match gix::Url::try_from(s) {
        Ok(u) => Ok(GitUrl {
            scheme: u.scheme.as_str().to_owned(),
            user: u.user.clone(),
            password: u.password.clone(),
            host: u.host.clone(),
            path: u.path.to_string(),
            text: u.to_bstring().to_string(),
        }),
        Err(e) => Err(e.to_string()),
    }
}

fn copy_opt(o: &Option<String>) -> (r: Option<String>)
    ensures
        r == *o,
{
    match o {
        Some(s) => Some(s.clone()),
        None => None,
    }
}

impl GitUrl {
    /// Reads a Git location; a location that gix refuses is an `InvalidUrl`.
    pub fn parse(s: &str) -> (r: Result<GitUrl, GitOpsError>)
        ensures
            r is Ok <==> gix_parsed(s@) is Some,
            r matches Ok(u) ==> gix_parsed(s@) == Some(url_parts(u)),
            r matches Err(e) ==> e is InvalidUrl,
    {
        match parse_with_gix(s) {
            Ok(u) => Ok(u),
            Err(msg) => Err(GitOpsError::InvalidUrl(msg)),
        }
    }

    /// A second value equal to this one.
    pub fn copied(&self) -> (r: GitUrl)
        ensures
            r == *self,
    {
        GitUrl {
            scheme: self.scheme.clone(),
            user: copy_opt(&self.user),
            password: copy_opt(&self.password),
            host: copy_opt(&self.host),
            path: self.path.clone(),
            text: self.text.clone(),
        }
    }

    /// The same location, to be fetched as `user` with `password`.
    pub fn with_credentials(&self, user: String, password: String) -> (r: GitUrl)
        ensures
            r == (GitUrl { user: Some(user), password: Some(password), ..*self }),
    {
        GitUrl {
            scheme: self.scheme.clone(),
            user: Some(user),
            password: Some(password),
            host: copy_opt(&self.host),
            path: self.path.clone(),
            text: self.text.clone(),
        }
    }

    pub fn is_https(&self) -> (r: bool)
        ensures
            r == (self.scheme@ == "https"@),
    {
        let https = String::from_str("https");
        self.scheme == https
    }
}

/// The location made safe as a single file name: every `/` and `:` of its
/// text becomes `_`.
pub open spec fn safe_text(t: Seq<char>) -> Seq<char> {
    replace_char(replace_char(t, '/', '_'), ':', '_')
}

/// The location of `url` as a file name for its local mirror.
pub fn safe_url(url: &GitUrl) -> (r: String)
    ensures
        r@ == safe_text(url.text@),
{
    let t = url.text.as_str();
    let n = t.unicode_len();
    let mut out = String::new();
    let mut i: usize = 0;
    proof {
        reveal_strlit("_");
    }
    while i < n
        invariant
            n == t@.len(),
            t@ == url.text@,
            i <= n,
            out@ == safe_text(t@).subrange(0, i as int),
        decreases n - i,
    {
        let c = t.get_char(i);
        assert(safe_text(t@).len() == t@.len());
        assert(safe_text(t@)[i as int] == (if c == '/' || c == ':' { '_' } else { c }));
        proof {
            reveal_strlit("_");
        }
        if c == '/' || c == ':' {
            out.append("_");
        } else {
            let one = t.substring_char(i, i + 1);
            assert(one@ =~= seq![c]);
            out.append(one);
        }
        assert(out@ =~= safe_text(t@).subrange(0, i + 1));
        i = i + 1;
    }
    assert(safe_text(t@).subrange(0, n as int) =~= safe_text(t@));
    out
}

/// The local ref under which a fetched branch is tracked.
pub open spec fn tracking_ref(branch: Seq<char>) -> Seq<char> {
    "refs/heads/"@ + branch
}

pub fn tracking_ref_exec(branch: &str) -> (r: String)
    ensures
        r@ == tracking_ref(branch@),
{
    concat2("refs/heads/", branch)
}

/// Whether advertised ref `r` is the tip of `branch`.
pub open spec fn is_tip_of(r: (String, Option<CommitId>), branch: Seq<char>) -> bool {
    r.0@ == tracking_ref(branch) && r.1 is Some
}

/// The commit that a remote advertises for `branch`, from its advertised refs
/// (name, and the commit it points at when it points at one): the first ref
/// named `refs/heads/<branch>` that points at a commit.
pub fn remote_tip(refs: &Vec<(String, Option<CommitId>)>, branch: &str) -> (r: Option<CommitId>)
    ensures
        r is Some <==> exists|i: int| 0 <= i < refs@.len() && is_tip_of(#[trigger] refs@[i], branch@),
        r matches Some(c) ==> exists|i: int|
            0 <= i < refs@.len() && is_tip_of(#[trigger] refs@[i], branch@) && refs@[i].1 == Some(c)
                && forall|k: int| 0 <= k < i ==> !is_tip_of(#[trigger] refs@[k], branch@),
{
    let needle = tracking_ref_exec(branch);
    let mut i: usize = 0;
    while i < refs.len()
        invariant
            needle@ == tracking_ref(branch@),
            i <= refs@.len(),
            forall|k: int| 0 <= k < i ==> !is_tip_of(#[trigger] refs@[k], branch@),
        decreases refs@.len() - i,
    {
        let r = &refs[i];
        if r.0 == needle {
            match &r.1 {
                Some(c) => {
                    return Some(c.copied());
                },
                None => {},
            }
        }
        i = i + 1;
    }
    None
}

/// Hands out a location as it is configured: fetching needs no credentials.
#[derive(Debug, Clone)]
pub struct DefaultUrlProvider {
    url: GitUrl,
}

impl DefaultUrlProvider {
    pub closed spec fn spec_url(&self) -> GitUrl {
        self.url
    }

    pub fn new(url: GitUrl) -> (r: DefaultUrlProvider)
        ensures
            r.spec_url() == url,
    {
        DefaultUrlProvider { url }
    }

    pub fn url(&self) -> (r: &GitUrl)
        ensures
            *r == self.spec_url(),
    {
        &self.url
    }

    /// The location to fetch from: the configured one.
    pub fn auth_url(&self) -> (r: Result<GitUrl, GitOpsError>)
        ensures
            r matches Ok(u) && u == self.spec_url(),
    {
        Ok(self.url.copied())
    }

    pub fn safe_url(&self) -> (r: String)
        ensures
            r@ == safe_text(self.spec_url().text@),
    {
        safe_url(&self.url)
    }
}

} // verus!
