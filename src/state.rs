use vstd::prelude::*;

verus! {

/// Number of hexadecimal digits in a SHA-1 commit id.
pub const COMMIT_HEX_LEN: usize = 40;

pub open spec fn is_hex_digit(c: char) -> bool {
    ('0' <= c && c <= '9') || ('a' <= c && c <= 'f')
}

/// A commit id in its lowercase hexadecimal form.
pub open spec fn is_commit_hex(s: Seq<char>) -> bool {
    s.len() == COMMIT_HEX_LEN && forall|i: int| 0 <= i < s.len() ==> is_hex_digit(#[trigger] s[i])
}

/// The all-zero commit id, which stands for "never observed".
pub open spec fn null_hex() -> Seq<char> {
    Seq::new(COMMIT_HEX_LEN as nat, |i: int| '0')
}

/// The id of a Git commit, held as its 40 lowercase hexadecimal digits.
#[derive(Debug, Clone)]
pub struct CommitId {
    hex: String,
}

impl View for CommitId {
    type V = Seq<char>;

    closed spec fn view(&self) -> Seq<char> {
        self.hex@
    }
}

impl PartialEq for CommitId {
    fn eq(&self, o: &CommitId) -> (r: bool)
        ensures
            r == (self@ == o@),
    {
        self.hex == o.hex
    }
}

impl vstd::std_specs::cmp::PartialEqSpecImpl for CommitId {
    open spec fn obeys_eq_spec() -> bool {
        true
    }

    open spec fn eq_spec(&self, o: &CommitId) -> bool {
        self@ == o@
    }
}

impl CommitId {
    pub closed spec fn wf(&self) -> bool {
        is_commit_hex(self.hex@)
    }

    /// The all-zero id.
    pub fn null() -> (r: CommitId)
        ensures
            r@ == null_hex(),
            r.wf(),
    {
        let mut hex = String::new();
        let mut i: usize = 0;
        while i < COMMIT_HEX_LEN
            invariant
                i <= COMMIT_HEX_LEN,
                hex@ == Seq::new(i as nat, |k: int| '0'),
            decreases COMMIT_HEX_LEN - i,
        {
            proof { reveal_strlit("0"); }
            hex.append("0");
            assert(hex@ =~= Seq::new((i + 1) as nat, |k: int| '0'));
            i = i + 1;
        }
        CommitId { hex }
    }

    /// Parses 40 lowercase hexadecimal digits.
    pub fn from_hex(s: &str) -> (r: Option<CommitId>)
        ensures
            r is Some <==> is_commit_hex(s@),
            r matches Some(id) ==> id@ == s@ && id.wf(),
    {
        let n = s.unicode_len();
        if n != COMMIT_HEX_LEN {
            return None;
        }
        let mut i: usize = 0;
        while i < n
            invariant
                n == s@.len(),
                i <= n,
                forall|k: int| 0 <= k < i ==> is_hex_digit(#[trigger] s@[k]),
            decreases n - i,
        {
            let c = s.get_char(i);
            if !(('0' <= c && c <= '9') || ('a' <= c && c <= 'f')) {
                return None;
            }
            i = i + 1;
        }
        Some(CommitId { hex: String::from_str(s) })
    }

    /// The hexadecimal digits.
    pub fn to_hex(&self) -> (r: String)
        ensures
            r@ == self@,
    {
        self.hex.clone()
    }

    /// A second value equal to this one.
    pub fn copied(&self) -> (r: CommitId)
        ensures
            r == *self,
    {
        CommitId { hex: self.hex.clone() }
    }

    pub fn is_null(&self) -> (r: bool)
        ensures
            r == (self@ == null_hex()),
    {
        let z = CommitId::null();
        self.hex == z.hex
    }
}

/// What is remembered of a task between runs: when it may run next
/// (milliseconds since the Unix epoch) and the last commit whose commands
/// all succeeded.
#[derive(Debug, Clone)]
pub struct State {
    pub next_run: u64,
    pub current_sha: CommitId,
}

impl Default for State {
    fn default() -> (r: State)
        ensures
            r.next_run == 0,
            r.current_sha@ == null_hex(),
    {
        State::initial()
    }
}

impl State {
    /// A task never run: due at once, no commit observed.
    pub fn initial() -> (r: State)
        ensures
            r.next_run == 0,
            r.current_sha@ == null_hex(),
    {
        State { next_run: 0, current_sha: CommitId::null() }
    }

    /// A second value equal to this one.
    pub fn copied(&self) -> (r: State)
        ensures
            r == *self,
    {
        State { next_run: self.next_run, current_sha: self.current_sha.copied() }
    }
}

} // verus!
