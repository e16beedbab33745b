use vstd::prelude::*;

use crate::errors::GitOpsError;
use crate::gix::{gix_parsed, url_parts, GitUrl};

verus! {

/// An environment as an ordered list of assignments; a later assignment of a
/// name overrides an earlier one, as when they are applied in turn.
pub open spec fn env_map(e: Seq<(String, String)>) -> Map<Seq<char>, Seq<char>>
    decreases e.len(),
{
    if e.len() == 0 {
        Map::empty()
    } else {
        env_map(e.drop_last()).insert(e.last().0@, e.last().1@)
    }
}

/// One command of a task.
#[derive(Debug, Clone)]
pub struct ActionConfig {
    pub name: String,
    pub entrypoint: String,
    pub args: Vec<String>,
    pub environment: Vec<(String, String)>,
    pub inherit_environment: bool,
}


/// Copies a list of strings element by element.
fn copy_strings(v: &Vec<String>) -> (r: Vec<String>)
    ensures
        r@ == v@,
{
    let mut out: Vec<String> = Vec::new();
    let mut i: usize = 0;
    while i < v.len()
        invariant
            i <= v@.len(),
            out@ == v@.subrange(0, i as int),
        decreases v@.len() - i,
    {
        out.push(v[i].clone());
        assert(out@ =~= v@.subrange(0, i + 1));
        i = i + 1;
    }
    assert(out@ =~= v@);
    out
}

/// Copies a list of assignments element by element.
fn copy_pairs(v: &Vec<(String, String)>) -> (r: Vec<(String, String)>)
    ensures
        r@ == v@,
{
    let mut out: Vec<(String, String)> = Vec::new();
    let mut i: usize = 0;
    while i < v.len()
        invariant
            i <= v@.len(),
            out@ == v@.subrange(0, i as int),
        decreases v@.len() - i,
    {
        out.push((v[i].0.clone(), v[i].1.clone()));
        assert(out@ =~= v@.subrange(0, i + 1));
        i = i + 1;
    }
    assert(out@ =~= v@);
    out
}

impl ActionConfig {
    /// Equal field by field, lists compared by their contents.
    pub open spec fn same_as(&self, o: ActionConfig) -> bool {
        &&& self.name == o.name
        &&& self.entrypoint == o.entrypoint
        &&& self.args@ == o.args@
        &&& self.environment@ == o.environment@
        &&& self.inherit_environment == o.inherit_environment
    }

    /// A second value equal to this one.
    pub fn copied(&self) -> (r: ActionConfig)
        ensures
            r.same_as(*self),
    {
        ActionConfig {
            name: self.name.clone(),
            entrypoint: self.entrypoint.clone(),
            args: copy_strings(&self.args),
            environment: copy_pairs(&self.environment),
            inherit_environment: self.inherit_environment,
        }
    }
}

/// Where a task's repository lives and which branch it follows.
#[derive(Debug, Clone)]
pub struct GitConfig {
    pub url: GitUrl,
    pub branch: String,
}

impl GitConfig {
    pub fn default_branch() -> (r: String)
        ensures
            r@ == "main"@,
    {
        String::from_str("main")
    }
}

/// Credentials of a GitHub App, and the context under which commit statuses
/// are posted (none: statuses are not posted).
#[derive(Debug, Clone)]
pub struct GithubConfig {
    pub app_id: String,
    pub private_key_file: String,
    pub status_context: Option<String>,
}

impl GithubConfig {
    pub fn default_context() -> (r: Option<String>)
        ensures
            r matches Some(c) && c@ == "kitops"@,
    {
        Some(String::from_str("kitops"))
    }
}

/// One task: a repository branch to follow and the commands to run on each
/// new commit. `interval` and `timeout` are in milliseconds.
#[derive(Debug, Clone)]
pub struct GitTaskConfig {
    pub name: String,
    pub github: Option<GithubConfig>,
    pub git: GitConfig,
    pub actions: Vec<ActionConfig>,
    pub interval: u64,
    pub timeout: u64,
}

impl GitTaskConfig {
    /// One minute.
    pub fn default_interval() -> (r: u64)
        ensures
            r == 60_000,
    {
        60_000
    }

    /// One hour.
    pub fn default_timeout() -> (r: u64)
        ensures
            r == 3_600_000,
    {
        3_600_000
    }
}

/// What humantime reads from a duration such as `1m 2s`: whole seconds and
/// the nanoseconds beyond them, or nothing where it refuses the text.
pub uninterp spec fn human_duration(s: Seq<char>) -> Option<(u64, u32)>;

/// Relies on `humantime::parse_duration` to read a duration written for
/// people (`1h`, `30m`, `1m 2s`), and on `Duration::as_secs` and
/// `Duration::subsec_nanos` (below one billion) to hand it over; the error is
/// humantime's message.
///
/// humantime panics (in `Duration::new`) when the seconds it sums up reach
/// `u64::MAX`. Every span of a duration starts with an ASCII digit and adds
/// less than 31_557_600 (a year in seconds) times ten to the number of its
/// digits, plus one year and a few seconds for a fraction; so a text of at
/// most `MAX_DURATION_DIGITS` digits in all stays far below that sum.
#[verifier::external_body]
fn parse_with_humantime(s: &str) -> (r: Result<(u64, u32), String>)
    requires
        digit_count(s@) <= MAX_DURATION_DIGITS,
    ensures
        r is Ok <==> human_duration(s@) is Some,
        r matches Ok(p) ==> human_duration(s@) == Some(p) && p.1 < 1_000_000_000,
{
    match humantime::parse_duration(s) {
        Ok(d) => Ok((d.as_secs(), d.subsec_nanos())),
        Err(e) => Err(e.to_string()),
    }
}

/// The most ASCII digits a duration text may hold in all.
pub const MAX_DURATION_DIGITS: usize = 11;

/// How many ASCII digits `s` holds.
pub open spec fn digit_count(s: Seq<char>) -> nat
    decreases s.len(),
{
    if s.len() == 0 {
        0
    } else {
        digit_count(s.drop_last()) + if '0' <= s.last() && s.last() <= '9' {
            1nat
        } else {
            0nat
        }
    }
}

/// Counts the ASCII digits of `s`.
pub fn count_digits(s: &str) -> (r: usize)
    ensures
        r == digit_count(s@),
{
    let n = s.unicode_len();
    let mut count: usize = 0;
    let mut i: usize = 0;
    while i < n
        invariant
            n == s@.len(),
            i <= n,
            count == digit_count(s@.subrange(0, i as int)),
            count <= i,
        decreases n - i,
    {
        let c = s.get_char(i);
        assert(s@.subrange(0, i + 1).drop_last() =~= s@.subrange(0, i as int));
        if '0' <= c && c <= '9' {
            count = count + 1;
        }
        i = i + 1;
    }
    assert(s@.subrange(0, n as int) =~= s@);
    count
}

/// What a duration text is worth in whole milliseconds: nothing when it holds
/// too many digits, when humantime refuses it, or when it does not fit.
pub open spec fn duration_ms_of(s: Seq<char>) -> Option<u64> {
    if digit_count(s) > MAX_DURATION_DIGITS {
        None
    } else {
        match human_duration(s) {
            Some(p) => millis_of(p.0, p.1),
            None => None,
        }
    }
}

/// A duration in whole milliseconds, when that fits in 64 bits.
pub open spec fn millis_of(secs: u64, nanos: u32) -> Option<u64> {
    let ms = secs * 1000 + nanos / 1_000_000;
    if ms <= u64::MAX {
        Some(ms as u64)
    } else {
        None
    }
}

/// Whole milliseconds of `secs` seconds and `nanos` nanoseconds.
pub fn duration_to_ms(secs: u64, nanos: u32) -> (r: Option<u64>)
    ensures
        r == millis_of(secs, nanos),
{
    match secs.checked_mul(1000) {
        Some(ms) => ms.checked_add((nanos / 1_000_000) as u64),
        None => None,
    }
}

/// Reads a duration written for people, in whole milliseconds. A text of
/// more than `MAX_DURATION_DIGITS` digits is refused.
pub fn parse_duration_ms(s: &str) -> (r: Result<u64, String>)
    ensures
        r is Ok <==> duration_ms_of(s@) is Some,
        r matches Ok(ms) ==> duration_ms_of(s@) == Some(ms),
{
    if count_digits(s) > MAX_DURATION_DIGITS {
        return Err(String::from_str("duration has too many digits"));
    }
    match parse_with_humantime(s) {
        Ok((secs, nanos)) => match duration_to_ms(secs, nanos) {
            Some(ms) => Ok(ms),
            None => Err(String::from_str("duration too long")),
        },
        Err(msg) => Err(msg),
    }
}

/// A task as a configuration file writes it: location and durations as
/// text, with branch and durations optional.
#[derive(Debug, Clone)]
pub struct TaskEntry {
    pub name: String,
    pub github: Option<GithubConfig>,
    pub url: String,
    pub branch: Option<String>,
    pub actions: Vec<ActionConfig>,
    pub interval: Option<String>,
    pub timeout: Option<String>,
}

/// The milliseconds of an optional duration text, `default` when absent.
pub open spec fn entry_duration(t: Option<String>, default: u64) -> Option<u64> {
    match t {
        None => Some(default),
        Some(s) => duration_ms_of(s@),
    }
}

fn duration_or(t: &Option<String>, default: u64) -> (r: Result<u64, GitOpsError>)
    ensures
        r is Ok <==> entry_duration(*t, default) is Some,
        r matches Ok(ms) ==> entry_duration(*t, default) == Some(ms),
        r matches Err(e) ==> e is MalformedConfig,
{
    match t {
        None => Ok(default),
        Some(s) => match parse_duration_ms(s.as_str()) {
            Ok(ms) => Ok(ms),
            Err(msg) => Err(GitOpsError::MalformedConfig(msg)),
        },
    }
}

impl GitTaskConfig {
    /// The task that a configuration file entry describes: the branch
    /// defaults to `main`, the interval to a minute, the timeout to an hour.
    /// A location that gix refuses, or a duration that humantime refuses, is
    /// a malformed configuration.
    pub fn from_entry(e: TaskEntry) -> (r: Result<GitTaskConfig, GitOpsError>)
        ensures
            r is Ok <==> gix_parsed(e.url@) is Some && entry_duration(e.interval, 60_000) is Some
                && entry_duration(e.timeout, 3_600_000) is Some,
            r matches Err(err) ==> err is MalformedConfig,
            r matches Ok(c) ==> {
                &&& c.name == e.name
                &&& c.github == e.github
                &&& gix_parsed(e.url@) == Some(url_parts(c.git.url))
                &&& c.git.branch@ == match e.branch {
                    Some(b) => b@,
                    None => "main"@,
                }
                &&& c.actions == e.actions
                &&& Some(c.interval) == entry_duration(e.interval, 60_000)
                &&& Some(c.timeout) == entry_duration(e.timeout, 3_600_000)
            },
    {
        let url = match GitUrl::parse(e.url.as_str()) {
            Ok(u) => u,
            Err(err) => {
                return Err(GitOpsError::MalformedConfig(err.message()));
            },
        };
        let interval = match duration_or(&e.interval, GitTaskConfig::default_interval()) {
            Ok(ms) => ms,
            Err(err) => {
                return Err(err);
            },
        };
        let timeout = match duration_or(&e.timeout, GitTaskConfig::default_timeout()) {
            Ok(ms) => ms,
            Err(err) => {
                return Err(err);
            },
        };
        let branch = match e.branch {
            Some(b) => b,
            None => GitConfig::default_branch(),
        };
        Ok(
            GitTaskConfig {
                name: e.name,
                github: e.github,
                git: GitConfig { url, branch },
                actions: e.actions,
                interval,
                timeout,
            },
        )
    }
}

/// The tasks of a configuration file.
#[derive(Debug, Clone)]
pub struct ConfigFile {
    pub tasks: Vec<GitTaskConfig>,
}

} // verus!
