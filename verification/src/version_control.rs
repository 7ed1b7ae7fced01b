//! Version control of a drawing project through Git.
//!
//! The decisions are made here; the Git processes run outside. An operation
//! starts with a call that either finishes at once or asks for a Git
//! command (`VcStep::Run`). Whoever runs the command hands its outcome to
//! `VersionControl::resume` together with the clock reading, and gets the
//! next step, until the operation finishes (`VcStep::Finished`).

use vstd::prelude::*;
use crate::text::{
    chars_of, digits_in_base, digits_of, lines_of, parse_u64, pieces, replace_chars, replaced,
    rows, split_chars, string_of, text_lines, trim_chars, trimmed, u64_of_text,
};

verus! {

broadcast use vstd::string::group_string_axioms;

/// Lower-case hexadecimal digit of a value below 16.
pub open spec fn hex_digit(d: int) -> char {
    if d < 10 {
        (48 + d) as char
    } else {
        (87 + d) as char
    }
}

/// Two lower-case hexadecimal digits per byte, high digit first
/// (`hex::encode`).
pub open spec fn hex_lower(b: Seq<u8>) -> Seq<char>
    decreases b.len(),
{
    if b.len() == 0 {
        Seq::empty()
    } else {
        hex_lower(b.drop_last()) + seq![hex_digit(b.last() as int / 16), hex_digit(b.last() as int % 16)]
    }
}

/// Value of a hexadecimal digit of either case, if it is one.
pub open spec fn hex_value(c: char) -> Option<u8> {
    if '0' <= c && c <= '9' {
        Some(((c as int) - 48) as u8)
    } else if 'a' <= c && c <= 'f' {
        Some(((c as int) - 87) as u8)
    } else if 'A' <= c && c <= 'F' {
        Some(((c as int) - 55) as u8)
    } else {
        None
    }
}

/// Whether a text is an even number of hexadecimal digits.
pub open spec fn is_hex_text(s: Seq<char>) -> bool {
    s.len() % 2 == 0 && forall|i: int| 0 <= i < s.len() ==> (#[trigger] hex_value(s[i])) is Some
}

/// The bytes an even-length run of hexadecimal digits stands for.
pub open spec fn hex_bytes(s: Seq<char>) -> Seq<u8> {
    Seq::new(
        s.len() / 2,
        |i: int| (hex_value(s[2 * i])->0 * 16 + hex_value(s[2 * i + 1])->0) as u8,
    )
}

/// Encodes bytes with `hex::encode`: two lower-case digits per byte.
#[verifier::external_body]
fn hex_encode(data: &[u8]) -> (r: String)
    ensures
        r@ == hex_lower(data@),
{
    hex::encode(data)
}

/// Decodes with `hex::decode`: it succeeds exactly on an even number of
/// hexadecimal digits of either case, with the bytes they stand for. The
/// error is the decoder's message; for an odd length it reads
/// `Odd number of digits`, for a bad digit it names the digit and where.
#[verifier::external_body]
fn hex_decode(text: &str) -> (r: Result<Vec<u8>, String>)
    ensures
        match r {
            Ok(v) => is_hex_text(text@) && v@ == hex_bytes(text@),
            Err(_) => !is_hex_text(text@),
        },
{
    match hex::decode(text) {
        Ok(v) => Ok(v),
        Err(e) => Err(e.to_string()),
    }
}

/// A commit hash: the twenty bytes of a SHA-1.
#[derive(Debug, Clone, Copy, PartialEq, Eq, Hash)]
pub struct CommitId(pub [u8; 20]);

impl CommitId {
    /// The all-zero hash.
    pub fn null() -> (r: Self)
        ensures
            forall|i: int| 0 <= i < 20 ==> r.0[i] == 0,
    {
        CommitId([0u8; 20])
    }

    pub fn from_bytes(bytes: [u8; 20]) -> (r: Self)
        ensures
            r.0 == bytes,
    {
        CommitId(bytes)
    }

    pub fn as_bytes(&self) -> (r: &[u8; 20])
        ensures
            *r == self.0,
    {
        &self.0
    }

    /// The hash as forty lower-case hexadecimal digits.
    pub fn to_hex(&self) -> (r: String)
        ensures
            r@ == hex_lower(self.0@),
    {
        hex_encode(&self.0)
    }

    /// Reads a hash from hexadecimal digits: the decoder's message when
    /// they are not an even number of digits, `Invalid commit ID length`
    /// when they are not forty.
    pub fn from_hex(hex: &str) -> (r: Result<Self, String>)
        ensures
            match r {
                Ok(id) => is_hex_text(hex@) && hex@.len() == 40 && id.0@ == hex_bytes(hex@),
                Err(msg) => !is_hex_text(hex@) || (hex@.len() != 40 && msg@
                    == "Invalid commit ID length"@),
            },
    {
        let bytes = hex_decode(hex)?;
        if bytes.len() != 20 {
            return Err("Invalid commit ID length".to_string());
        }
        let mut arr = [0u8; 20];
        let mut i: usize = 0;
        while i < 20
            invariant
                i <= 20,
                bytes@.len() == 20,
                forall|j: int| 0 <= j < i ==> arr@[j] == bytes@[j],
            decreases 20 - i,
        {
            arr[i] = bytes[i];
            i = i + 1;
        }
        assert(arr@ =~= bytes@);
        Ok(CommitId(arr))
    }
}

/// Decoding the hexadecimal text of bytes gives the bytes back.
pub proof fn lemma_hex_roundtrip(b: Seq<u8>)
    ensures
        is_hex_text(hex_lower(b)),
        hex_lower(b).len() == 2 * b.len(),
        hex_bytes(hex_lower(b)) == b,
    decreases b.len(),
{
    if b.len() > 0 {
        let t = b.drop_last();
        lemma_hex_roundtrip(t);
        let s = hex_lower(b);
        let x = b.last();
        assert(s == hex_lower(t) + seq![hex_digit(x as int / 16), hex_digit(x as int % 16)]);
        assert(hex_value(hex_digit(x as int / 16)) == Some((x / 16) as u8));
        assert(hex_value(hex_digit(x as int % 16)) == Some((x % 16) as u8));
        assert forall|i: int| 0 <= i < s.len() implies (#[trigger] hex_value(s[i])) is Some by {
            if i < hex_lower(t).len() {
                assert(s[i] == hex_lower(t)[i]);
            }
        }
        assert forall|i: int| 0 <= i < b.len() implies #[trigger] hex_bytes(s)[i] == b[i] by {
            if i < t.len() {
                assert(s[2 * i] == hex_lower(t)[2 * i]);
                assert(s[2 * i + 1] == hex_lower(t)[2 * i + 1]);
                assert(hex_bytes(hex_lower(t))[i] == t[i]);
            } else {
                assert(s[2 * i] == hex_digit(x as int / 16));
                assert(s[2 * i + 1] == hex_digit(x as int % 16));
                assert((x / 16) * 16 + x % 16 == x);
            }
        }
        assert(hex_bytes(s) =~= b);
    }
}

/// A commit hash read back from its hexadecimal text is the same hash.
pub proof fn lemma_commit_id_hex_roundtrip(id: CommitId)
    ensures
        is_hex_text(hex_lower(id.0@)),
        hex_lower(id.0@).len() == 40,
        hex_bytes(hex_lower(id.0@)) == id.0@,
{
    lemma_hex_roundtrip(id.0@);
}

/// The name of a branch.
#[derive(Debug, Clone, PartialEq, Eq, Hash)]
pub struct BranchId(pub String);

impl BranchId {
    pub fn new(name: &str) -> (r: Self)
        ensures
            r.0@ == name@,
    {
        BranchId(name.to_string())
    }

    pub fn main() -> (r: Self)
        ensures
            r.0@ == "main"@,
    {
        BranchId("main".to_string())
    }

    pub fn master() -> (r: Self)
        ensures
            r.0@ == "master"@,
    {
        BranchId("master".to_string())
    }

    pub fn name(&self) -> (r: &str)
        ensures
            r@ == self.0@,
    {
        self.0.as_str()
    }
}

impl View for BranchId {
    type V = Seq<char>;

    open spec fn view(&self) -> Seq<char> {
        self.0@
    }
}

impl BranchId {
    /// A branch name with the same text.
    pub fn copy(&self) -> (r: Self)
        ensures
            r@ == self@,
    {
        BranchId(self.0.clone())
    }
}

/// A moment, as seconds and nanoseconds since the Unix epoch.
#[derive(Debug, Clone, Copy, PartialEq, Eq)]
pub struct Timestamp {
    pub secs: u64,
    pub nanos: u32,
}

/// An editing operation recorded with a commit.
#[derive(Debug, Clone, Copy, PartialEq, Eq, Hash)]
pub struct OperationId(pub u64);

/// What made a commit.
#[derive(Debug, Clone, Copy, PartialEq, Eq)]
pub enum CommitType {
    Auto,
    Manual,
    Merge,
    Branch,
    Tag,
}

/// A commit as the library records it.
#[derive(Debug, Clone)]
pub struct Commit {
    pub id: CommitId,
    pub message: String,
    pub author: String,
    pub timestamp: Timestamp,
    pub parents: Vec<CommitId>,
    pub operation_ids: Vec<OperationId>,
    pub changed_files: Vec<String>,
    pub commit_type: CommitType,
}

/// The values of a commit.
pub struct CommitView {
    pub id: CommitId,
    pub message: Seq<char>,
    pub author: Seq<char>,
    pub timestamp: Timestamp,
    pub parents: Seq<CommitId>,
    pub operation_ids: Seq<OperationId>,
    pub changed_files: Seq<Seq<char>>,
    pub commit_type: CommitType,
}

impl View for Commit {
    type V = CommitView;

    open spec fn view(&self) -> CommitView {
        CommitView {
            id: self.id,
            message: self.message@,
            author: self.author@,
            timestamp: self.timestamp,
            parents: self.parents@,
            operation_ids: self.operation_ids@,
            changed_files: self.changed_files@.map_values(|f: String| f@),
            commit_type: self.commit_type,
        }
    }
}

/// A branch as the library records it.
#[derive(Debug, Clone)]
pub struct Branch {
    pub id: BranchId,
    pub head: CommitId,
    pub created_at: Timestamp,
    pub description: String,
    pub tracking: Option<String>,
}

/// The values of a branch.
pub struct BranchView {
    pub name: Seq<char>,
    pub head: CommitId,
    pub created_at: Timestamp,
    pub description: Seq<char>,
    pub tracking: Option<Seq<char>>,
}

impl View for Branch {
    type V = BranchView;

    open spec fn view(&self) -> BranchView {
        BranchView {
            name: self.id@,
            head: self.head,
            created_at: self.created_at,
            description: self.description@,
            tracking: match &self.tracking {
                Some(t) => Some(t@),
                None => None,
            },
        }
    }
}

/// Settings of the version control.
#[derive(Debug, Clone)]
pub struct VCConfig {
    /// Seconds between automatic commits.
    pub auto_commit_interval: u64,
    /// Most commits kept in the cache.
    pub max_cache_size: usize,
    pub auto_commit_enabled: bool,
    pub author_name: String,
    pub author_email: String,
    /// Message of automatic commits; `{count}` and `{description}` are
    /// replaced.
    pub commit_message_template: String,
}

impl Default for VCConfig {
    fn default() -> (c: Self)
        ensures
            c.auto_commit_interval == 300,
            c.max_cache_size == 1000,
            c.auto_commit_enabled,
            c.author_name@ == "ZCAD User"@,
            c.author_email@ == "user@zcad.local"@,
            c.commit_message_template@ == "Auto-commit: {count} operations"@,
    {
        VCConfig {
            auto_commit_interval: 300,
            max_cache_size: 1000,
            auto_commit_enabled: true,
            author_name: "ZCAD User".to_string(),
            author_email: "user@zcad.local".to_string(),
            commit_message_template: "Auto-commit: {count} operations".to_string(),
        }
    }
}

/// Counters of the version control.
#[derive(Debug, Clone, Copy, PartialEq, Eq)]
pub struct VCStats {
    pub total_commits: usize,
    pub total_branches: usize,
    pub last_commit_time: Option<Timestamp>,
    pub auto_commits: usize,
    pub manual_commits: usize,
}

impl Default for VCStats {
    fn default() -> (s: Self)
        ensures
            s == (VCStats {
                total_commits: 0,
                total_branches: 0,
                last_commit_time: None,
                auto_commits: 0,
                manual_commits: 0,
            }),
    {
        VCStats {
            total_commits: 0,
            total_branches: 0,
            last_commit_time: None,
            auto_commits: 0,
            manual_commits: 0,
        }
    }
}

/// Why an operation of the version control failed.
#[derive(Debug, Clone, PartialEq, Eq)]
pub enum VCError {
    StringError(String),
    NotInitialized,
    AlreadyInitialized,
    GitError(String),
    IoError(String),
    BranchExists(String),
    BranchNotFound(String),
    AutoCommitDisabled,
    NoChanges,
    InvalidCommitId,
}

/// How a Git command ended.
#[derive(Debug, Clone)]
pub enum GitOutcome {
    /// The process could not be started; the reason.
    NotStarted(String),
    /// The process ran; whether it exited successfully, and its output
    /// read as UTF-8 with invalid sequences replaced.
    Exited { success: bool, stdout: String, stderr: String },
}

/// The error of a checked Git command: a failure to start, or the error
/// output of an unsuccessful exit.
pub open spec fn git_failure(o: GitOutcome) -> Option<Seq<char>> {
    match o {
        GitOutcome::NotStarted(e) => Some(e@),
        GitOutcome::Exited { success, stderr, .. } => if success {
            None
        } else {
            Some(stderr@)
        },
    }
}

/// The output of a Git command.
pub open spec fn git_stdout(o: GitOutcome) -> Seq<char> {
    match o {
        GitOutcome::NotStarted(_) => Seq::empty(),
        GitOutcome::Exited { stdout, .. } => stdout@,
    }
}

/// The text views of a list of strings.
pub open spec fn texts(v: Seq<String>) -> Seq<Seq<char>> {
    v.map_values(|x: String| x@)
}

/// What follows a commit made inside a longer operation.
#[derive(Debug, Clone, Copy, PartialEq, Eq)]
pub enum AfterCommit {
    /// The operation ends with the commit's id.
    Return,
    /// The operation ends with nothing to report.
    Finish,
    /// Repository creation goes on with its initial files and commit.
    InitialCommit,
}

/// What follows a branch checkout.
#[derive(Debug, Clone)]
pub enum AfterSwitch {
    Finish,
    /// Merging: the source branch is checked out; merge into it, then go back.
    Merge { target: BranchId, message: String },
    /// Merging: back on the original branch; record the merge commit.
    CommitMerge { message: String },
}

/// What follows the `git config` commands.
#[derive(Debug, Clone, Copy, PartialEq, Eq)]
pub enum AfterConfigure {
    Finish,
    /// Repository creation goes on with the main branch.
    CreateMain,
}

/// A commit to be made.
#[derive(Debug, Clone)]
pub struct CommitRequest {
    pub message: String,
    pub operation_ids: Vec<OperationId>,
    pub commit_type: CommitType,
    pub after: AfterCommit,
}

/// The point an operation has reached while a command runs.
#[derive(Debug, Clone)]
pub enum VcTask {
    CommitStatus(CommitRequest),
    CommitAdd(CommitRequest),
    CommitRecord(CommitRequest),
    CommitLog(CommitRequest),
    CommitParents(CommitRequest, CommitId, Timestamp),
    CommitFiles(CommitRequest, CommitId, Timestamp, CommitId),
    BranchCheckout(BranchId, String, AfterCommit),
    BranchHead(BranchId, String, AfterCommit),
    SwitchCheckout(BranchId, AfterSwitch),
    MergeRun(BranchId, String),
    History,
    Diff,
    Revert,
    Configure(u8, AfterConfigure),
    InitRepo,
    WriteIgnore,
    WriteReadme,
    InitAdd,
    InitCommit,
    LoadBranches,
    LoadCurrentBranch,
}

impl VcTask {
    /// Whether the task waits for a file to be written rather than for Git.
    pub open spec fn waits_for_file(self) -> bool {
        self is WriteIgnore || self is WriteReadme
    }
}

/// What the outside work reported.
#[derive(Debug)]
pub enum VcEvent {
    Git(GitOutcome),
    /// A file in the repository was written, or the reason it was not.
    Written(Result<(), String>),
}

/// What a finished operation returns.
#[derive(Debug)]
pub enum VcOutput {
    Nothing,
    Committed(CommitId),
    History(Vec<Commit>),
    Diff(String),
}

/// The next thing an operation needs.
#[derive(Debug)]
pub enum VcStep {
    /// Run `git` with these arguments in the repository, then resume.
    Run(VcTask, Vec<String>),
    /// Write a file (name relative to the repository) with this content,
    /// then resume.
    Write(VcTask, String, String),
    Finished(Result<VcOutput, VCError>),
}

/// Whether a step asks for this Git command and waits with a task that
/// satisfies `task_ok`.
pub open spec fn runs(step: VcStep, args: Seq<Seq<char>>, task_ok: spec_fn(VcTask) -> bool) -> bool {
    step matches VcStep::Run(t, a) && texts(a@) == args && task_ok(t)
}

/// Whether a step finishes with this error.
pub open spec fn fails_with(step: VcStep, e: VCError) -> bool {
    step matches VcStep::Finished(Err(x)) && x == e
}

/// The error a step finishes with, compared by kind and text.
pub open spec fn fails_git(step: VcStep, msg: Seq<char>) -> bool {
    step matches VcStep::Finished(Err(VCError::GitError(m))) && m@ == msg
}

/// The values of a commit request.
pub open spec fn request_view(r: CommitRequest) -> (Seq<char>, Seq<OperationId>, CommitType, AfterCommit) {
    (r.message@, r.operation_ids@, r.commit_type, r.after)
}

/// The arguments of the four `git config` commands, in order.
pub open spec fn config_args(c: VCConfig, k: int) -> Seq<Seq<char>> {
    if k == 1 {
        seq!["config"@, "user.name"@, c.author_name@]
    } else if k == 2 {
        seq!["config"@, "user.email"@, c.author_email@]
    } else if k == 3 {
        seq!["config"@, "core.autocrlf"@, "false"@]
    } else {
        seq!["config"@, "core.safecrlf"@, "false"@]
    }
}

/// A hash text a commit id can be read from, and the id.
pub open spec fn id_from_text(t: Seq<char>, id: CommitId) -> bool {
    is_hex_text(t) && t.len() == 40 && id.0@ == hex_bytes(t)
}

/// Whether a text can be read as a commit id.
pub open spec fn is_id_text(t: Seq<char>) -> bool {
    is_hex_text(t) && t.len() == 40
}

/// One entry of the history: hash bytes, subject, author, seconds.
pub open spec fn history_entry(p: Seq<Seq<char>>) -> Option<(Seq<u8>, Seq<char>, Seq<char>, u64)> {
    if is_id_text(p[0]) {
        Some(
            (
                hex_bytes(p[0]),
                p[1],
                p[2],
                match u64_of_text(p[3]) {
                    Some(v) => v,
                    None => 0,
                },
            ),
        )
    } else {
        None
    }
}

/// The entries of history lines split at `|`: lines with fewer than four
/// fields are skipped; nothing when a hash cannot be read.
pub open spec fn history_entries(fields: Seq<Seq<Seq<char>>>) -> Option<
    Seq<(Seq<u8>, Seq<char>, Seq<char>, u64)>,
>
    decreases fields.len(),
{
    if fields.len() == 0 {
        Some(Seq::empty())
    } else {
        match history_entries(fields.drop_last()) {
            None => None,
            Some(prev) => if fields.last().len() < 4 {
                Some(prev)
            } else {
                match history_entry(fields.last()) {
                    None => None,
                    Some(e) => Some(prev.push(e)),
                }
            },
        }
    }
}

/// The fields of each line of some Git output.
pub open spec fn history_fields(out: Seq<char>) -> Seq<Seq<Seq<char>>> {
    text_lines(out).map_values(|l: Seq<char>| pieces(l, '|'))
}

/// Whether a commit holds a history entry.
pub open spec fn commit_of_entry(c: CommitView, e: (Seq<u8>, Seq<char>, Seq<char>, u64)) -> bool {
    &&& c.id.0@ == e.0
    &&& c.message == e.1
    &&& c.author == e.2
    &&& c.timestamp == Timestamp { secs: e.3, nanos: 0 }
    &&& c.parents.len() == 0
    &&& c.operation_ids.len() == 0
    &&& c.changed_files.len() == 0
    &&& c.commit_type == CommitType::Manual
}

/// The commit cache after recording a commit: it replaces a cached commit
/// with the same id, or comes last.
pub open spec fn cache_insert(s: Seq<CommitView>, c: CommitView) -> Seq<CommitView> {
    if exists|i: int| 0 <= i < s.len() && #[trigger] s[i].id == c.id {
        s.update(choose|i: int| 0 <= i < s.len() && #[trigger] s[i].id == c.id, c)
    } else {
        s.push(c)
    }
}

/// The cache after clean-up: above the limit, the first half of the limit
/// is kept.
pub open spec fn cache_cleanup(s: Seq<CommitView>, max: nat) -> Seq<CommitView> {
    if s.len() > max {
        s.take((max / 2) as int)
    } else {
        s
    }
}

/// The cache never holds more commits than the limit after clean-up.
pub proof fn lemma_cleanup_bounded(s: Seq<CommitView>, max: nat)
    ensures
        cache_cleanup(s, max).len() <= max,
{
}

/// The branches after moving the head of the named one.
pub open spec fn set_head(bs: Seq<BranchView>, name: Seq<char>, id: CommitId) -> Seq<BranchView> {
    bs.map_values(
        |b: BranchView|
            if b.name == name {
                BranchView { head: id, ..b }
            } else {
                b
            },
    )
}

/// The branches after recording a branch: it replaces one of the same
/// name, or comes last.
pub open spec fn branch_insert(bs: Seq<BranchView>, b: BranchView) -> Seq<BranchView> {
    if exists|i: int| 0 <= i < bs.len() && #[trigger] bs[i].name == b.name {
        bs.update(choose|i: int| 0 <= i < bs.len() && #[trigger] bs[i].name == b.name, b)
    } else {
        bs.push(b)
    }
}

/// The counters after a commit of some kind at some time.
pub open spec fn stats_after_commit(st: VCStats, kind: CommitType, now: Timestamp) -> VCStats {
    VCStats {
        total_commits: (st.total_commits + 1) as usize,
        last_commit_time: Some(now),
        auto_commits: if kind is Auto {
            (st.auto_commits + 1) as usize
        } else {
            st.auto_commits
        },
        manual_commits: if kind is Manual {
            (st.manual_commits + 1) as usize
        } else {
            st.manual_commits
        },
        ..st
    }
}

/// Whether no counter is at its limit.
pub open spec fn counters_below_max(st: VCStats) -> bool {
    &&& st.total_commits < usize::MAX
    &&& st.total_branches < usize::MAX
    &&& st.auto_commits < usize::MAX
    &&& st.manual_commits < usize::MAX
}

fn args2(a: &str, b: &str) -> (r: Vec<String>)
    ensures
        texts(r@) == seq![a@, b@],
{
    let mut r: Vec<String> = Vec::new();
    r.push(a.to_string());
    r.push(b.to_string());
    assert(texts(r@) =~= seq![a@, b@]);
    r
}

fn args3(a: &str, b: &str, c: &str) -> (r: Vec<String>)
    ensures
        texts(r@) == seq![a@, b@, c@],
{
    let mut r: Vec<String> = Vec::new();
    r.push(a.to_string());
    r.push(b.to_string());
    r.push(c.to_string());
    assert(texts(r@) =~= seq![a@, b@, c@]);
    r
}

fn args5(a: &str, b: &str, c: &str, d: &str, e: &str) -> (r: Vec<String>)
    ensures
        texts(r@) == seq![a@, b@, c@, d@, e@],
{
    let mut r: Vec<String> = Vec::new();
    r.push(a.to_string());
    r.push(b.to_string());
    r.push(c.to_string());
    r.push(d.to_string());
    r.push(e.to_string());
    assert(texts(r@) =~= seq![a@, b@, c@, d@, e@]);
    r
}

/// Decimal digits of a count.
fn count_text(n: usize) -> (r: String)
    ensures
        r@ == digits_in_base(n as nat, 10),
{
    let d = digits_of(n as u64, 10);
    string_of(d.as_slice())
}

/// The output of a command with surrounding white space removed.
fn trimmed_text(s: &String) -> (r: String)
    ensures
        r@ == trimmed(s@),
{
    let cs = chars_of(s.as_str());
    let t = trim_chars(cs.as_slice());
    string_of(t.as_slice())
}

/// The text of a string followed by two more.
fn concat3(a: &str, b: &str, c: &str) -> (r: String)
    ensures
        r@ == a@ + b@ + c@,
{
    let mut v = chars_of(a);
    let bv = chars_of(b);
    let cv = chars_of(c);
    let mut i: usize = 0;
    let ghost start = v@;
    while i < bv.len()
        invariant
            i <= bv@.len(),
            v@ == start + bv@.take(i as int),
        decreases bv@.len() - i,
    {
        v.push(bv[i]);
        assert(start + bv@.take(i as int).push(bv@[i as int]) =~= start + bv@.take(i + 1));
        i = i + 1;
    }
    assert(bv@.take(bv@.len() as int) =~= bv@);
    let mut j: usize = 0;
    let ghost mid = v@;
    while j < cv.len()
        invariant
            j <= cv@.len(),
            v@ == mid + cv@.take(j as int),
        decreases cv@.len() - j,
    {
        v.push(cv[j]);
        assert(mid + cv@.take(j as int).push(cv@[j as int]) =~= mid + cv@.take(j + 1));
        j = j + 1;
    }
    assert(cv@.take(cv@.len() as int) =~= cv@);
    string_of(v.as_slice())
}

/// The message of an automatic commit: the template with `{count}` and then
/// `{description}` replaced.
pub open spec fn auto_message(template: Seq<char>, count: nat, description: Seq<char>) -> Seq<char> {
    replaced(
        replaced(template, "{count}"@, digits_in_base(count, 10)),
        "{description}"@,
        description,
    )
}

/// Git-backed version control of a project directory.
pub struct VersionControl {
    repo_path: String,
    current_branch: BranchId,
    branches: Vec<Branch>,
    commit_cache: Vec<Commit>,
    config: VCConfig,
    stats: VCStats,
}

/// Branch names occur once.
pub open spec fn unique_names(bs: Seq<BranchView>) -> bool {
    forall|i: int, j: int|
        0 <= i < bs.len() && 0 <= j < bs.len() && #[trigger] bs[i].name == #[trigger] bs[j].name
            ==> i == j
}

/// Commit ids occur once.
pub open spec fn unique_ids(cs: Seq<CommitView>) -> bool {
    forall|i: int, j: int|
        0 <= i < cs.len() && 0 <= j < cs.len() && #[trigger] cs[i].id == #[trigger] cs[j].id ==> i
            == j
}

/// Whether a branch of this name is known.
pub open spec fn has_branch(bs: Seq<BranchView>, name: Seq<char>) -> bool {
    exists|i: int| 0 <= i < bs.len() && #[trigger] bs[i].name == name
}

impl VersionControl {
    /// The project directory.
    pub closed spec fn repo(&self) -> Seq<char> {
        self.repo_path@
    }

    /// The name of the checked-out branch.
    pub closed spec fn current(&self) -> Seq<char> {
        self.current_branch@
    }

    /// The known branches.
    pub closed spec fn branch_views(&self) -> Seq<BranchView> {
        self.branches@.map_values(|b: Branch| b@)
    }

    /// The cached commits, oldest first.
    pub closed spec fn cache(&self) -> Seq<CommitView> {
        self.commit_cache@.map_values(|c: Commit| c@)
    }

    /// The settings.
    pub closed spec fn cfg(&self) -> VCConfig {
        self.config
    }

    /// The counters.
    pub closed spec fn statistics(&self) -> VCStats {
        self.stats
    }

    /// Branch names and cached ids occur once.
    pub open spec fn wf(&self) -> bool {
        unique_names(self.branch_views()) && unique_ids(self.cache())
    }

    fn fresh(repo_path: String) -> (vc: Self)
        ensures
            vc.wf(),
            vc.repo() == repo_path@,
            vc.current() == "main"@,
            vc.branch_views().len() == 0,
            vc.cache().len() == 0,
            vc.statistics() == VCStats::default_spec(),
            vc.cfg().auto_commit_interval == 300,
            vc.cfg().max_cache_size == 1000,
            vc.cfg().auto_commit_enabled,
            vc.cfg().author_name@ == "ZCAD User"@,
            vc.cfg().author_email@ == "user@zcad.local"@,
            vc.cfg().commit_message_template@ == "Auto-commit: {count} operations"@,
    {
        let vc = VersionControl {
            repo_path,
            current_branch: BranchId::main(),
            branches: Vec::new(),
            commit_cache: Vec::new(),
            config: VCConfig::default(),
            stats: VCStats::default(),
        };
        assert(vc.branch_views() =~= Seq::<BranchView>::empty());
        assert(vc.cache() =~= Seq::<CommitView>::empty());
        vc
    }

    /// The checked-out branch.
    pub fn current_branch(&self) -> (r: &BranchId)
        ensures
            r@ == self.current(),
    {
        &self.current_branch
    }

    /// The known branches.
    pub fn branches(&self) -> (r: &[Branch])
        ensures
            r@.map_values(|b: Branch| b@) == self.branch_views(),
    {
        self.branches.as_slice()
    }

    /// The counters.
    pub fn stats(&self) -> (r: &VCStats)
        ensures
            *r == self.statistics(),
    {
        &self.stats
    }

    /// The settings.
    pub fn config(&self) -> (r: &VCConfig)
        ensures
            *r == self.cfg(),
    {
        &self.config
    }

    /// Position of a branch by name.
    fn find_branch(&self, name: &BranchId) -> (r: Option<usize>)
        ensures
            match r {
                Some(i) => i < self.branch_views().len() && self.branch_views()[i as int].name
                    == name@,
                None => !has_branch(self.branch_views(), name@),
            },
    {
        let mut i: usize = 0;
        while i < self.branches.len()
            invariant
                i <= self.branches@.len(),
                forall|j: int| 0 <= j < i ==> self.branch_views()[j].name != name@,
            decreases self.branches@.len() - i,
        {
            if crate::text::chars_eq(
                chars_of(self.branches[i].id.0.as_str()).as_slice(),
                chars_of(name.0.as_str()).as_slice(),
            ) {
                return Some(i);
            }
            i = i + 1;
        }
        None
    }
}

impl VCStats {
    /// All counters zero, no commit time.
    pub open spec fn default_spec() -> VCStats {
        VCStats {
            total_commits: 0,
            total_branches: 0,
            last_commit_time: None,
            auto_commits: 0,
            manual_commits: 0,
        }
    }
}

/// The error of a checked Git command an event reports.
pub open spec fn event_failure(e: VcEvent) -> Option<Seq<char>> {
    match e {
        VcEvent::Git(o) => git_failure(o),
        VcEvent::Written(_) => Some(Seq::empty()),
    }
}

/// The output of the Git command an event reports.
pub open spec fn event_stdout(e: VcEvent) -> Seq<char> {
    match e {
        VcEvent::Git(o) => git_stdout(o),
        VcEvent::Written(_) => Seq::empty(),
    }
}

/// The reason a Git process could not start, when the event reports one.
pub open spec fn event_not_started(e: VcEvent) -> Option<Seq<char>> {
    match e {
        VcEvent::Git(GitOutcome::NotStarted(m)) => Some(m@),
        _ => None,
    }
}

/// Whether the step starts a commit with these values.
pub open spec fn starts_commit(
    step: VcStep,
    message: Seq<char>,
    ops: Seq<OperationId>,
    kind: CommitType,
    after: AfterCommit,
) -> bool {
    runs(
        step,
        seq!["status"@, "--porcelain"@],
        |t: VcTask| t matches VcTask::CommitStatus(r) && request_view(r) == (message, ops, kind, after),
    )
}

/// Whether the step goes on with the same commit at the next stage.
pub open spec fn next_commit_stage(step: VcStep, args: Seq<Seq<char>>, r: CommitRequest, stage: int) -> bool {
    runs(
        step,
        args,
        |t: VcTask|
            match t {
                VcTask::CommitAdd(r2) => stage == 1 && request_view(r2) == request_view(r),
                VcTask::CommitRecord(r2) => stage == 2 && request_view(r2) == request_view(r),
                VcTask::CommitLog(r2) => stage == 3 && request_view(r2) == request_view(r),
                _ => false,
            },
    )
}

/// Whether the step finishes with a `StringError`.
pub open spec fn fails_string(step: VcStep) -> bool {
    step matches VcStep::Finished(Err(VCError::StringError(_)))
}

/// Whether the step finishes with `BranchNotFound` for this name.
pub open spec fn fails_branch_missing(step: VcStep, name: Seq<char>) -> bool {
    step matches VcStep::Finished(Err(VCError::BranchNotFound(n))) && n@ == name
}

/// Whether the step finishes with `BranchExists` for this name.
pub open spec fn fails_branch_exists(step: VcStep, name: Seq<char>) -> bool {
    step matches VcStep::Finished(Err(VCError::BranchExists(n))) && n@ == name
}

/// Whether the step finishes successfully with nothing to return.
pub open spec fn finishes(step: VcStep) -> bool {
    step matches VcStep::Finished(Ok(VcOutput::Nothing))
}

/// Only the checked-out branch differs.
pub open spec fn same_but_current(pre: VersionControl, post: VersionControl) -> bool {
    &&& post.repo() == pre.repo()
    &&& post.branch_views() == pre.branch_views()
    &&& post.cache() == pre.cache()
    &&& post.cfg() == pre.cfg()
    &&& post.statistics() == pre.statistics()
}

/// The commit recorded from a request, id, time, parent and changed files.
pub open spec fn recorded_commit(
    pre: VersionControl,
    r: CommitRequest,
    id: CommitId,
    ts: Timestamp,
    parent: CommitId,
    files: Seq<Seq<char>>,
) -> CommitView {
    CommitView {
        id,
        message: r.message@,
        author: pre.cfg().author_name@,
        timestamp: ts,
        parents: seq![parent],
        operation_ids: r.operation_ids@,
        changed_files: files,
        commit_type: r.commit_type,
    }
}

/// The state after a commit is recorded.
pub open spec fn after_commit(pre: VersionControl, post: VersionControl, c: CommitView) -> bool {
    &&& post.repo() == pre.repo()
    &&& post.current() == pre.current()
    &&& post.cfg() == pre.cfg()
    &&& post.cache() == cache_cleanup(cache_insert(pre.cache(), c), pre.cfg().max_cache_size as nat)
    &&& post.branch_views() == set_head(pre.branch_views(), pre.current(), c.id)
    &&& post.statistics() == stats_after_commit(pre.statistics(), c.commit_type, c.timestamp)
}

/// The step after a commit is recorded.
pub open spec fn step_after_commit(step: VcStep, after: AfterCommit, id: CommitId) -> bool {
    match after {
        AfterCommit::Return => step matches VcStep::Finished(Ok(VcOutput::Committed(x))) && x == id,
        AfterCommit::Finish => step matches VcStep::Finished(Ok(VcOutput::Nothing)),
        AfterCommit::InitialCommit => step matches VcStep::Write(t, name, content) && t is WriteIgnore
            && name@ == ".zcadignore"@ && content@ == "*.tmp\n*.bak\n.cache/\n"@,
    }
}

/// One transition of an operation: the state before, the task that waited,
/// what the outside reported and when, the state after and the next step.
pub open spec fn resumed(
    pre: VersionControl,
    task: VcTask,
    event: VcEvent,
    now: Timestamp,
    post: VersionControl,
    step: VcStep,
) -> bool {
    let fail = event_failure(event);
    let out = event_stdout(event);
    match task {
        VcTask::CommitStatus(r) => post == pre && match fail {
            Some(e) => fails_git(step, e),
            None => if out.len() == 0 {
                fails_with(step, VCError::NoChanges)
            } else {
                next_commit_stage(step, seq!["add"@, "."@], r, 1)
            },
        },
        VcTask::CommitAdd(r) => post == pre && match fail {
            Some(e) => fails_git(step, e),
            None => next_commit_stage(step, seq!["commit"@, "-m"@, r.message@], r, 2),
        },
        VcTask::CommitRecord(r) => post == pre && match fail {
            Some(e) => fails_git(step, e),
            None => next_commit_stage(step, seq!["log"@, "-1"@, "--format=%H"@], r, 3),
        },
        VcTask::CommitLog(r) => post == pre && match fail {
            Some(e) => fails_git(step, e),
            None => if is_id_text(trimmed(out)) {
                runs(
                    step,
                    seq!["rev-parse"@, "HEAD~1"@],
                    |t: VcTask|
                        t matches VcTask::CommitParents(r2, id, ts) && request_view(r2)
                            == request_view(r) && id_from_text(trimmed(out), id) && ts == now,
                )
            } else {
                fails_string(step)
            },
        },
        VcTask::CommitParents(r, id, ts) => post == pre && match fail {
            Some(e) => fails_git(step, e),
            None => if is_id_text(trimmed(out)) {
                runs(
                    step,
                    seq!["diff"@, "--name-only"@, "HEAD~1"@],
                    |t: VcTask|
                        t matches VcTask::CommitFiles(r2, id2, ts2, p) && request_view(r2)
                            == request_view(r) && id2 == id && ts2 == ts && id_from_text(
                            trimmed(out),
                            p,
                        ),
                )
            } else {
                fails_string(step)
            },
        },
        VcTask::CommitFiles(r, id, ts, p) => match fail {
            Some(e) => post == pre && fails_git(step, e),
            None => after_commit(pre, post, recorded_commit(pre, r, id, ts, p, text_lines(out)))
                && step_after_commit(step, r.after, id),
        },
        VcTask::BranchCheckout(b, d, after) => post == pre && match fail {
            Some(e) => fails_git(step, e),
            None => runs(
                step,
                seq!["rev-parse"@, "HEAD"@],
                |t: VcTask|
                    t matches VcTask::BranchHead(b2, d2, a2) && b2@ == b@ && d2@ == d@ && a2
                        == after,
            ),
        },
        VcTask::BranchHead(b, d, after) => match fail {
            Some(e) => post == pre && fails_git(step, e),
            None => if is_id_text(trimmed(out)) {
                &&& post.repo() == pre.repo()
                &&& post.current() == pre.current()
                &&& post.cfg() == pre.cfg()
                &&& post.cache() == pre.cache()
                &&& post.statistics() == VCStats {
                    total_branches: (pre.statistics().total_branches + 1) as usize,
                    ..pre.statistics()
                }
                &&& exists|head: CommitId|
                    id_from_text(trimmed(out), head) && post.branch_views() == branch_insert(
                        pre.branch_views(),
                        BranchView {
                            name: b@,
                            head,
                            created_at: now,
                            description: d@,
                            tracking: None,
                        },
                    )
                &&& starts_commit(
                    step,
                    "Create branch '"@ + b@ + "'"@,
                    Seq::empty(),
                    CommitType::Branch,
                    after,
                )
            } else {
                post == pre && fails_string(step)
            },
        },
        VcTask::SwitchCheckout(b, next) => match fail {
            Some(e) => post == pre && fails_git(step, e),
            None => same_but_current(pre, post) && post.current() == b@ && match next {
                AfterSwitch::Finish => finishes(step),
                AfterSwitch::Merge { target, message } => runs(
                    step,
                    seq!["merge"@, target@, "--no-ff"@, "-m"@, message@],
                    |t: VcTask| t matches VcTask::MergeRun(t2, m2) && t2@ == target@ && m2@ == message@,
                ),
                AfterSwitch::CommitMerge { message } => starts_commit(
                    step,
                    message@,
                    Seq::empty(),
                    CommitType::Merge,
                    AfterCommit::Return,
                ),
            },
        },
        VcTask::MergeRun(target, message) => post == pre && match fail {
            Some(e) => fails_git(step, e),
            None => if has_branch(pre.branch_views(), target@) {
                runs(
                    step,
                    seq!["checkout"@, target@],
                    |t: VcTask|
                        t matches VcTask::SwitchCheckout(b2, AfterSwitch::CommitMerge { message: m2 })
                            && b2@ == target@ && m2@ == message@,
                )
            } else {
                fails_branch_missing(step, target@)
            },
        },
        VcTask::History => post == pre && match fail {
            Some(e) => fails_git(step, e),
            None => match history_entries(history_fields(out)) {
                None => fails_string(step),
                Some(es) => step matches VcStep::Finished(Ok(VcOutput::History(v))) && v@.len()
                    == es.len() && forall|k: int|
                    0 <= k < es.len() ==> commit_of_entry(#[trigger] v@[k]@, es[k]),
            },
        },
        VcTask::Diff => post == pre && match fail {
            Some(e) => fails_git(step, e),
            None => step matches VcStep::Finished(Ok(VcOutput::Diff(d))) && d@ == out,
        },
        VcTask::Revert => post == pre && match fail {
            Some(e) => fails_git(step, e),
            None => finishes(step),
        },
        VcTask::Configure(k, next) => post == pre && match event_not_started(event) {
            Some(e) => fails_git(step, e),
            None => if k < 4 {
                runs(
                    step,
                    config_args(pre.cfg(), k + 1),
                    |t: VcTask| t matches VcTask::Configure(k2, n2) && k2 == k + 1 && n2 == next,
                )
            } else {
                match next {
                    AfterConfigure::Finish => finishes(step),
                    AfterConfigure::CreateMain => runs(
                        step,
                        seq!["checkout"@, "-b"@, "main"@],
                        |t: VcTask|
                            t matches VcTask::BranchCheckout(b, d, a) && b@ == "main"@ && d@
                                == "Main branch"@ && a == AfterCommit::InitialCommit,
                    ),
                }
            },
        },
        VcTask::InitRepo => post == pre && match event_not_started(event) {
            Some(e) => fails_git(step, e),
            None => runs(
                step,
                config_args(pre.cfg(), 1),
                |t: VcTask| t matches VcTask::Configure(k2, n2) && k2 == 1 && n2 == AfterConfigure::CreateMain,
            ),
        },
        VcTask::WriteIgnore => post == pre && match event {
            VcEvent::Written(Err(e)) => step matches VcStep::Finished(Err(VCError::IoError(m))) && m@ == e@,
            _ => step matches VcStep::Write(t, name, content) && t is WriteReadme && name@
                == "README.md"@ && content@ == "# ZCAD Project\n\nCreated with ZCAD.\n"@,
        },
        VcTask::WriteReadme => post == pre && match event {
            VcEvent::Written(Err(e)) => step matches VcStep::Finished(Err(VCError::IoError(m))) && m@ == e@,
            _ => runs(step, seq!["add"@, "."@], |t: VcTask| t is InitAdd),
        },
        VcTask::InitAdd => post == pre && match fail {
            Some(e) => fails_git(step, e),
            None => runs(step, seq!["commit"@, "-m"@, "Initial commit"@], |t: VcTask| t is InitCommit),
        },
        VcTask::InitCommit => post == pre && match fail {
            Some(e) => fails_git(step, e),
            None => finishes(step),
        },
        VcTask::LoadBranches => post == pre && match fail {
            Some(e) => fails_git(step, e),
            None => runs(
                step,
                seq!["rev-parse"@, "--abbrev-ref"@, "HEAD"@],
                |t: VcTask| t is LoadCurrentBranch,
            ),
        },
        VcTask::LoadCurrentBranch => match fail {
            Some(e) => post == pre && fails_git(step, e),
            None => same_but_current(pre, post) && post.current() == trimmed(out) && finishes(step),
        },
    }
}

/// Whether two commit ids are the same hash.
fn same_id(a: &CommitId, b: &CommitId) -> (r: bool)
    ensures
        r == (*a == *b),
{
    let mut i: usize = 0;
    while i < 20
        invariant
            i <= 20,
            forall|j: int| 0 <= j < i ==> a.0[j] == b.0[j],
        decreases 20 - i,
    {
        if a.0[i] != b.0[i] {
            return false;
        }
        i = i + 1;
    }
    assert(a.0 =~= b.0);
    true
}

/// The output of a checked Git command, or its error.
fn checked(event: &VcEvent) -> (r: Result<&String, String>)
    ensures
        match r {
            Ok(out) => event_failure(*event) is None && out@ == event_stdout(*event),
            Err(e) => event_failure(*event) == Some(e@),
        },
{
    match event {
        VcEvent::Git(GitOutcome::NotStarted(e)) => Err(e.clone()),
        VcEvent::Git(GitOutcome::Exited { success, stdout, stderr }) => if *success {
            Ok(stdout)
        } else {
            Err(stderr.clone())
        },
        VcEvent::Written(_) => Err(String::new()),
    }
}

fn git_error(msg: String) -> (step: VcStep)
    ensures
        fails_git(step, msg@),
{
    VcStep::Finished(Err(VCError::GitError(msg)))
}

fn copy_request(r: &CommitRequest) -> (c: CommitRequest)
    ensures
        request_view(c) == request_view(*r),
{
    CommitRequest {
        message: r.message.clone(),
        operation_ids: r.operation_ids.clone(),
        commit_type: r.commit_type,
        after: r.after,
    }
}

/// Whether a commit id in the cache has this value.
proof fn lemma_cache_index(s: Seq<CommitView>, i: int)
    requires
        unique_ids(s),
        0 <= i < s.len(),
    ensures
        (choose|j: int| 0 <= j < s.len() && #[trigger] s[j].id == s[i].id) == i,
{
    let id = s[i].id;
    assert(exists|j: int| 0 <= j < s.len() && #[trigger] s[j].id == id);
    let j = choose|j: int| 0 <= j < s.len() && #[trigger] s[j].id == id;
    assert(s[j].id == s[i].id);
}

proof fn lemma_branch_index(s: Seq<BranchView>, i: int)
    requires
        unique_names(s),
        0 <= i < s.len(),
    ensures
        (choose|j: int| 0 <= j < s.len() && #[trigger] s[j].name == s[i].name) == i,
{
    let n = s[i].name;
    assert(exists|j: int| 0 <= j < s.len() && #[trigger] s[j].name == n);
    let j = choose|j: int| 0 <= j < s.len() && #[trigger] s[j].name == n;
    assert(s[j].name == s[i].name);
}

impl VersionControl {
    /// Records a commit whose files are listed in some Git output.
    fn record_commit(
        &mut self,
        r: CommitRequest,
        id: CommitId,
        ts: Timestamp,
        parent: CommitId,
        out: &String,
    ) -> (step: VcStep)
        requires
            old(self).wf(),
            counters_below_max(old(self).statistics()),
        ensures
            final(self).wf(),
            after_commit(
                *old(self),
                *final(self),
                recorded_commit(*old(self), r, id, ts, parent, text_lines(out@)),
            ),
            step_after_commit(step, r.after, id),
    {
        let ghost pre = *self;
        let rows_out = lines_of(out.as_str());
        let mut files: Vec<String> = Vec::new();
        let mut i: usize = 0;
        while i < rows_out.len()
            invariant
                i <= rows_out@.len(),
                texts(files@) == rows(rows_out@).take(i as int),
            decreases rows_out@.len() - i,
        {
            let ghost before = texts(files@);
            files.push(string_of(rows_out[i].as_slice()));
            assert(texts(files@) =~= before.push(rows_out@[i as int]@));
            assert(rows(rows_out@).take(i + 1) =~= rows(rows_out@).take(i as int).push(
                rows_out@[i as int]@,
            ));
            i = i + 1;
        }
        assert(rows(rows_out@).take(rows_out@.len() as int) =~= rows(rows_out@));
        let after = r.after;
        let kind = r.commit_type;
        let mut parents: Vec<CommitId> = Vec::new();
        parents.push(parent);
        let commit = Commit {
            id,
            message: r.message,
            author: self.config.author_name.clone(),
            timestamp: ts,
            parents,
            operation_ids: r.operation_ids,
            changed_files: files,
            commit_type: kind,
        };
        let ghost c = commit@;
        assert(c.changed_files =~= text_lines(out@));
        assert(c == recorded_commit(pre, r, id, ts, parent, text_lines(out@)));
        // cache insert
        let ghost cache0 = self.cache();
        let mut k: usize = 0;
        let mut found = false;
        while !found && k < self.commit_cache.len()
            invariant
                self.cache() == cache0,
                unique_ids(cache0),
                k <= cache0.len(),
                found ==> k < cache0.len() && cache0[k as int].id == id,
                !found ==> forall|j: int| 0 <= j < k ==> cache0[j].id != id,
            decreases cache0.len() - k + (if found { 0int } else { 1int }),
        {
            if same_id(&self.commit_cache[k].id, &id) {
                found = true;
            } else {
                k = k + 1;
            }
        }
        if found {
            self.commit_cache.remove(k);
            self.commit_cache.insert(k, commit);
            proof {
                lemma_cache_index(cache0, k as int);
                assert(self.cache() =~= cache0.update(k as int, c));
            }
        } else {
            self.commit_cache.push(commit);
            assert(self.cache() =~= cache0.push(c));
        }
        let ghost cache1 = self.cache();
        assert(cache1 == cache_insert(cache0, c));
        proof {
            assert forall|a: int, b: int|
                0 <= a < cache1.len() && 0 <= b < cache1.len() && #[trigger] cache1[a].id
                    == #[trigger] cache1[b].id implies a == b by {
                if found {
                    if a != k && b != k {
                        assert(cache1[a] == cache0[a] && cache1[b] == cache0[b]);
                    } else if a != k {
                        assert(cache1[a] == cache0[a]);
                    } else if b != k {
                        assert(cache1[b] == cache0[b]);
                    }
                } else {
                    if a < cache0.len() && b < cache0.len() {
                        assert(cache1[a] == cache0[a] && cache1[b] == cache0[b]);
                    } else if a < cache0.len() {
                        assert(cache1[a] == cache0[a]);
                    } else if b < cache0.len() {
                        assert(cache1[b] == cache0[b]);
                    }
                }
            }
        }
        // branch head
        let ghost bs0 = self.branch_views();
        let mut j: usize = 0;
        while j < self.branches.len()
            invariant
                j <= bs0.len(),
                self.branches@.len() == bs0.len(),
                self.current_branch@ == pre.current(),
                self.cache() == cache1,
                self.stats == pre.stats,
                self.config == pre.config,
                self.repo_path == pre.repo_path,
                counters_below_max(pre.statistics()),
                forall|x: int| 0 <= x < j ==> self.branch_views()[x] == set_head(bs0, pre.current(), id)[x],
                forall|x: int| j <= x < bs0.len() ==> self.branch_views()[x] == bs0[x],
            decreases bs0.len() - j,
        {
            if crate::text::chars_eq(
                chars_of(self.branches[j].id.0.as_str()).as_slice(),
                chars_of(self.current_branch.0.as_str()).as_slice(),
            ) {
                let ghost before = self.branch_views();
                let mut b = self.branches.remove(j);
                b.head = id;
                let ghost nb = b@;
                self.branches.insert(j, b);
                assert(self.branch_views() =~= before.update(j as int, nb));
            }
            j = j + 1;
        }
        assert(self.branch_views() =~= set_head(bs0, pre.current(), id));
        proof {
            let bs1 = self.branch_views();
            assert forall|a: int, b: int|
                0 <= a < bs1.len() && 0 <= b < bs1.len() && #[trigger] bs1[a].name
                    == #[trigger] bs1[b].name implies a == b by {
                assert(bs1[a].name == bs0[a].name);
                assert(bs1[b].name == bs0[b].name);
            }
        }
        // counters
        self.stats.total_commits = self.stats.total_commits + 1;
        self.stats.last_commit_time = Some(ts);
        match kind {
            CommitType::Auto => {
                self.stats.auto_commits = self.stats.auto_commits + 1;
            },
            CommitType::Manual => {
                self.stats.manual_commits = self.stats.manual_commits + 1;
            },
            _ => {},
        }
        // clean-up
        if self.commit_cache.len() > self.config.max_cache_size {
            let keep = self.config.max_cache_size / 2;
            self.commit_cache.truncate(keep);
            proof {
                let c2 = self.cache();
                assert(c2 =~= cache1.take(keep as int));
                assert forall|a: int, b: int|
                    0 <= a < c2.len() && 0 <= b < c2.len() && #[trigger] c2[a].id == #[trigger] c2[b].id implies a
                    == b by {
                    assert(c2[a] == cache1[a] && c2[b] == cache1[b]);
                }
            }
        }
        match after {
            AfterCommit::Return => VcStep::Finished(Ok(VcOutput::Committed(id))),
            AfterCommit::Finish => VcStep::Finished(Ok(VcOutput::Nothing)),
            AfterCommit::InitialCommit => VcStep::Write(
                VcTask::WriteIgnore,
                ".zcadignore".to_string(),
                "*.tmp\n*.bak\n.cache/\n".to_string(),
            ),
        }
    }
}

fn args1(a: &str) -> (r: Vec<String>)
    ensures
        texts(r@) == seq![a@],
{
    let mut r: Vec<String> = Vec::new();
    r.push(a.to_string());
    assert(texts(r@) =~= seq![a@]);
    r
}

/// The step that starts a commit.
fn start_commit(r: CommitRequest) -> (step: VcStep)
    ensures
        starts_commit(step, r.message@, r.operation_ids@, r.commit_type, r.after),
{
    VcStep::Run(VcTask::CommitStatus(r), args2("status", "--porcelain"))
}

/// The arguments of one of the four `git config` commands.
fn config_command(c: &VCConfig, k: u8) -> (r: Vec<String>)
    requires
        1 <= k <= 4,
    ensures
        texts(r@) == config_args(*c, k as int),
{
    if k == 1 {
        args3("config", "user.name", c.author_name.as_str())
    } else if k == 2 {
        args3("config", "user.email", c.author_email.as_str())
    } else if k == 3 {
        args3("config", "core.autocrlf", "false")
    } else {
        args3("config", "core.safecrlf", "false")
    }
}

/// Reads a commit id from the trimmed output of a Git command.
fn id_from_output(out: &String) -> (r: Result<CommitId, String>)
    ensures
        match r {
            Ok(id) => id_from_text(trimmed(out@), id),
            Err(_) => !is_id_text(trimmed(out@)),
        },
{
    let t = trimmed_text(out);
    CommitId::from_hex(t.as_str())
}

/// Reads the commits listed by `git log --format=%H|%s|%an|%at`.
fn parse_history(out: &String) -> (r: Result<Vec<Commit>, String>)
    ensures
        match history_entries(history_fields(out@)) {
            None => r is Err,
            Some(es) => r matches Ok(v) && v@.len() == es.len() && forall|k: int|
                0 <= k < es.len() ==> commit_of_entry(#[trigger] v@[k]@, es[k]),
        },
{
    let lines = lines_of(out.as_str());
    let ghost fields = history_fields(out@);
    assert(fields.len() == lines@.len());
    let mut commits: Vec<Commit> = Vec::new();
    let mut i: usize = 0;
    while i < lines.len()
        invariant
            i <= lines@.len(),
            fields == history_fields(out@),
            rows(lines@) == text_lines(out@),
            fields.len() == lines@.len(),
            history_entries(fields.take(i as int)) matches Some(es) && commits@.len() == es.len()
                && forall|k: int| 0 <= k < es.len() ==> commit_of_entry(#[trigger] commits@[k]@, es[k]),
        decreases lines@.len() - i,
    {
        let parts = split_chars(lines[i].as_slice(), '|');
        let ghost prefix = fields.take(i as int);
        let ghost next = fields.take(i + 1);
        proof {
            assert(next.drop_last() =~= prefix);
            assert(fields[i as int] == pieces(lines@[i as int]@, '|'));
            assert(rows(parts@) == next.last());
        }
        if parts.len() >= 4 {
            let id = match CommitId::from_hex(string_of(parts[0].as_slice()).as_str()) {
                Ok(id) => id,
                Err(e) => {
                    proof {
                        assert(history_entry(next.last()) is None);
                        assert(history_entries(next) is None);
                        lemma_history_none_extends(fields, i as int + 1);
                        assert(fields.take(fields.len() as int) =~= fields);
                    }
                    return Err(e);
                },
            };
            let secs = match parse_u64(parts[3].as_slice()) {
                Some(v) => v,
                None => 0,
            };
            let c = Commit {
                id,
                message: string_of(parts[1].as_slice()),
                author: string_of(parts[2].as_slice()),
                timestamp: Timestamp { secs, nanos: 0 },
                parents: Vec::new(),
                operation_ids: Vec::new(),
                changed_files: Vec::new(),
                commit_type: CommitType::Manual,
            };
            let ghost es = history_entries(prefix)->Some_0;
            proof {
                let e = history_entry(next.last())->Some_0;
                assert(c@.changed_files =~= Seq::<Seq<char>>::empty());
                assert(commit_of_entry(c@, e));
            }
            commits.push(c);
        }
        i = i + 1;
    }
    assert(fields.take(fields.len() as int) =~= fields);
    Ok(commits)
}

/// Once a hash cannot be read, no longer list of lines can be read either.
proof fn lemma_history_none_extends(fields: Seq<Seq<Seq<char>>>, n: int)
    requires
        0 <= n <= fields.len(),
        history_entries(fields.take(n)) is None,
    ensures
        history_entries(fields) is None,
    decreases fields.len() - n,
{
    if n < fields.len() {
        assert(fields.take(n + 1).drop_last() =~= fields.take(n));
        lemma_history_none_extends(fields, n + 1);
    } else {
        assert(fields.take(n) =~= fields);
    }
}

impl VersionControl {
    /// Starts creating a repository in a directory: refused when it already
    /// has a `.git` directory, otherwise `git init` is run first.
    pub fn init(repo_path: String, git_dir_exists: bool) -> (r: Result<(Self, VcStep), VCError>)
        ensures
            git_dir_exists ==> (r matches Err(e) && e == VCError::AlreadyInitialized),
            !git_dir_exists ==> (r matches Ok((vc, step)) && vc.wf() && vc.repo() == repo_path@
                && vc.current() == "main"@ && vc.branch_views().len() == 0 && vc.cache().len() == 0
                && vc.statistics() == VCStats::default_spec() && runs(
                step,
                seq!["init"@],
                |t: VcTask| t is InitRepo,
            )),
    {
        if git_dir_exists {
            return Err(VCError::AlreadyInitialized);
        }
        let vc = Self::fresh(repo_path);
        Ok((vc, VcStep::Run(VcTask::InitRepo, args1("init"))))
    }

    /// Starts opening the repository of a directory: refused without a
    /// `.git` directory, otherwise the branches are listed first.
    pub fn open(repo_path: String, git_dir_exists: bool) -> (r: Result<(Self, VcStep), VCError>)
        ensures
            !git_dir_exists ==> (r matches Err(e) && e == VCError::NotInitialized),
            git_dir_exists ==> (r matches Ok((vc, step)) && vc.wf() && vc.repo() == repo_path@
                && vc.current() == "main"@ && vc.branch_views().len() == 0 && vc.cache().len() == 0
                && vc.statistics() == VCStats::default_spec() && runs(
                step,
                seq!["branch"@, "-a"@],
                |t: VcTask| t is LoadBranches,
            )),
    {
        if !git_dir_exists {
            return Err(VCError::NotInitialized);
        }
        let vc = Self::fresh(repo_path);
        Ok((vc, VcStep::Run(VcTask::LoadBranches, args2("branch", "-a"))))
    }

    /// Starts an automatic commit, whose message is the template with the
    /// operation count and the description filled in.
    pub fn auto_commit(&mut self, operation_count: usize, description: &str) -> (step: VcStep)
        ensures
            *final(self) == *old(self),
            !old(self).cfg().auto_commit_enabled ==> fails_with(step, VCError::AutoCommitDisabled),
            old(self).cfg().auto_commit_enabled ==> starts_commit(
                step,
                auto_message(
                    old(self).cfg().commit_message_template@,
                    operation_count as nat,
                    description@,
                ),
                Seq::empty(),
                CommitType::Auto,
                AfterCommit::Return,
            ),
    {
        if !self.config.auto_commit_enabled {
            return VcStep::Finished(Err(VCError::AutoCommitDisabled));
        }
        proof {
            reveal_strlit("{count}");
            reveal_strlit("{description}");
        }
        let template = chars_of(self.config.commit_message_template.as_str());
        let count = chars_of(count_text(operation_count).as_str());
        let m1 = replace_chars(template.as_slice(), chars_of("{count}").as_slice(), count.as_slice());
        let m2 = replace_chars(
            m1.as_slice(),
            chars_of("{description}").as_slice(),
            chars_of(description).as_slice(),
        );
        let message = string_of(m2.as_slice());
        let ops: Vec<OperationId> = Vec::new();
        assert(ops@ =~= Seq::<OperationId>::empty());
        start_commit(
            CommitRequest {
                message,
                operation_ids: ops,
                commit_type: CommitType::Auto,
                after: AfterCommit::Return,
            },
        )
    }

    /// Starts a commit made by the user.
    pub fn manual_commit(&mut self, message: &str, operation_ids: Vec<OperationId>) -> (step: VcStep)
        ensures
            *final(self) == *old(self),
            starts_commit(
                step,
                message@,
                operation_ids@,
                CommitType::Manual,
                AfterCommit::Return,
            ),
    {
        start_commit(
            CommitRequest {
                message: message.to_string(),
                operation_ids,
                commit_type: CommitType::Manual,
                after: AfterCommit::Return,
            },
        )
    }

    /// Starts creating a branch; refused when one of that name is known.
    pub fn create_branch(&mut self, branch_id: BranchId, description: String) -> (step: VcStep)
        ensures
            *final(self) == *old(self),
            has_branch(old(self).branch_views(), branch_id@) ==> fails_branch_exists(
                step,
                branch_id@,
            ),
            !has_branch(old(self).branch_views(), branch_id@) ==> runs(
                step,
                seq!["checkout"@, "-b"@, branch_id@],
                |t: VcTask|
                    t matches VcTask::BranchCheckout(b, d, a) && b@ == branch_id@ && d@
                        == description@ && a == AfterCommit::Finish,
            ),
    {
        match self.find_branch(&branch_id) {
            Some(_) => VcStep::Finished(Err(VCError::BranchExists(branch_id.0))),
            None => {
                let args = args3("checkout", "-b", branch_id.0.as_str());
                VcStep::Run(VcTask::BranchCheckout(branch_id, description, AfterCommit::Finish), args)
            },
        }
    }

    /// Starts checking out a known branch; refused for an unknown one.
    pub fn switch_branch(&mut self, branch_id: &BranchId) -> (step: VcStep)
        ensures
            *final(self) == *old(self),
            !has_branch(old(self).branch_views(), branch_id@) ==> fails_branch_missing(
                step,
                branch_id@,
            ),
            has_branch(old(self).branch_views(), branch_id@) ==> runs(
                step,
                seq!["checkout"@, branch_id@],
                |t: VcTask|
                    t matches VcTask::SwitchCheckout(b, AfterSwitch::Finish) && b@ == branch_id@,
            ),
    {
        match self.find_branch(branch_id) {
            None => VcStep::Finished(Err(VCError::BranchNotFound(branch_id.0.clone()))),
            Some(_) => {
                let args = args2("checkout", branch_id.0.as_str());
                VcStep::Run(VcTask::SwitchCheckout(branch_id.copy(), AfterSwitch::Finish), args)
            },
        }
    }

    /// Starts merging: checks out the source branch, merges the current
    /// branch into it, checks the current branch out again and records a
    /// merge commit. Refused when the source branch is unknown.
    pub fn merge_branch(&mut self, source_branch: &BranchId, message: &str) -> (step: VcStep)
        ensures
            *final(self) == *old(self),
            !has_branch(old(self).branch_views(), source_branch@) ==> fails_branch_missing(
                step,
                source_branch@,
            ),
            has_branch(old(self).branch_views(), source_branch@) ==> runs(
                step,
                seq!["checkout"@, source_branch@],
                |t: VcTask|
                    t matches VcTask::SwitchCheckout(b, AfterSwitch::Merge { target, message: m })
                        && b@ == source_branch@ && target@ == old(self).current() && m@ == message@,
            ),
    {
        match self.find_branch(source_branch) {
            None => VcStep::Finished(Err(VCError::BranchNotFound(source_branch.0.clone()))),
            Some(_) => {
                let args = args2("checkout", source_branch.0.as_str());
                VcStep::Run(
                    VcTask::SwitchCheckout(
                        source_branch.copy(),
                        AfterSwitch::Merge {
                            target: self.current_branch.copy(),
                            message: message.to_string(),
                        },
                    ),
                    args,
                )
            },
        }
    }

    /// Starts listing the last commits, newest first.
    pub fn get_commit_history(&self, limit: usize) -> (step: VcStep)
        ensures
            runs(
                step,
                seq![
                    "log"@,
                    "--oneline"@,
                    "-n"@,
                    digits_in_base(limit as nat, 10),
                    "--format=%H|%s|%an|%at"@,
                ],
                |t: VcTask| t is History,
            ),
    {
        let n = count_text(limit);
        VcStep::Run(
            VcTask::History,
            args5("log", "--oneline", "-n", n.as_str(), "--format=%H|%s|%an|%at"),
        )
    }

    /// Starts computing the difference between two commits.
    pub fn get_diff(&self, from: &CommitId, to: &CommitId) -> (step: VcStep)
        ensures
            runs(
                step,
                seq!["diff"@, hex_lower(from.0@), hex_lower(to.0@)],
                |t: VcTask| t is Diff,
            ),
    {
        let a = from.to_hex();
        let b = to.to_hex();
        VcStep::Run(VcTask::Diff, args3("diff", a.as_str(), b.as_str()))
    }

    /// Starts resetting the working tree to a commit.
    pub fn revert_to_commit(&mut self, commit_id: &CommitId) -> (step: VcStep)
        ensures
            *final(self) == *old(self),
            runs(
                step,
                seq!["reset"@, "--hard"@, hex_lower(commit_id.0@)],
                |t: VcTask| t is Revert,
            ),
    {
        let h = commit_id.to_hex();
        VcStep::Run(VcTask::Revert, args3("reset", "--hard", h.as_str()))
    }

    /// Replaces the settings and starts writing the author and line-ending
    /// settings into the repository's Git configuration.
    pub fn update_config(&mut self, config: VCConfig) -> (step: VcStep)
        requires
            old(self).wf(),
        ensures
            final(self).wf(),
            final(self).cfg() == config,
            final(self).repo() == old(self).repo(),
            final(self).current() == old(self).current(),
            final(self).branch_views() == old(self).branch_views(),
            final(self).cache() == old(self).cache(),
            final(self).statistics() == old(self).statistics(),
            runs(
                step,
                config_args(config, 1),
                |t: VcTask| t matches VcTask::Configure(k, n) && k == 1 && n == AfterConfigure::Finish,
            ),
    {
        self.config = config;
        let args = config_command(&self.config, 1);
        VcStep::Run(VcTask::Configure(1, AfterConfigure::Finish), args)
    }
}

impl VersionControl {
    /// Goes on with an operation: the task it waited with, what the outside
    /// work reported, and the clock reading when it did.
    pub fn resume(&mut self, task: VcTask, event: VcEvent, now: Timestamp) -> (step: VcStep)
        requires
            old(self).wf(),
            task.waits_for_file() <==> event is Written,
            task matches VcTask::CommitFiles(..) ==> counters_below_max(old(self).statistics()),
            task matches VcTask::BranchHead(..) ==> old(self).statistics().total_branches
                < usize::MAX,
            task matches VcTask::Configure(k, _) ==> 1 <= k <= 4,
        ensures
            final(self).wf(),
            resumed(*old(self), task, event, now, *final(self), step),
    {
        match task {
            VcTask::CommitStatus(r) => match checked(&event) {
                Err(e) => git_error(e),
                Ok(out) => if chars_of(out.as_str()).len() == 0 {
                    VcStep::Finished(Err(VCError::NoChanges))
                } else {
                    VcStep::Run(VcTask::CommitAdd(r), args2("add", "."))
                },
            },
            VcTask::CommitAdd(r) => match checked(&event) {
                Err(e) => git_error(e),
                Ok(_) => {
                    let args = args3("commit", "-m", r.message.as_str());
                    VcStep::Run(VcTask::CommitRecord(r), args)
                },
            },
            VcTask::CommitRecord(r) => match checked(&event) {
                Err(e) => git_error(e),
                Ok(_) => VcStep::Run(VcTask::CommitLog(r), args3("log", "-1", "--format=%H")),
            },
            VcTask::CommitLog(r) => match checked(&event) {
                Err(e) => git_error(e),
                Ok(out) => match id_from_output(out) {
                    Err(e) => VcStep::Finished(Err(VCError::StringError(e))),
                    Ok(id) => VcStep::Run(
                        VcTask::CommitParents(r, id, now),
                        args2("rev-parse", "HEAD~1"),
                    ),
                },
            },
            VcTask::CommitParents(r, id, ts) => match checked(&event) {
                Err(e) => git_error(e),
                Ok(out) => match id_from_output(out) {
                    Err(e) => VcStep::Finished(Err(VCError::StringError(e))),
                    Ok(p) => VcStep::Run(
                        VcTask::CommitFiles(r, id, ts, p),
                        args3("diff", "--name-only", "HEAD~1"),
                    ),
                },
            },
            VcTask::CommitFiles(r, id, ts, p) => match checked(&event) {
                Err(e) => git_error(e),
                Ok(out) => self.record_commit(r, id, ts, p, out),
            },
            VcTask::BranchCheckout(b, d, after) => match checked(&event) {
                Err(e) => git_error(e),
                Ok(_) => VcStep::Run(VcTask::BranchHead(b, d, after), args2("rev-parse", "HEAD")),
            },
            VcTask::BranchHead(b, d, after) => match checked(&event) {
                Err(e) => git_error(e),
                Ok(out) => match id_from_output(out) {
                    Err(e) => VcStep::Finished(Err(VCError::StringError(e))),
                    Ok(head) => {
                        let message = concat3("Create branch '", b.0.as_str(), "'");
                        let branch = Branch {
                            id: b,
                            head,
                            created_at: now,
                            description: d,
                            tracking: None,
                        };
                        self.insert_branch(branch);
                        self.stats.total_branches = self.stats.total_branches + 1;
                        let ops: Vec<OperationId> = Vec::new();
                        assert(ops@ =~= Seq::<OperationId>::empty());
                        start_commit(
                            CommitRequest {
                                message,
                                operation_ids: ops,
                                commit_type: CommitType::Branch,
                                after,
                            },
                        )
                    },
                },
            },
            VcTask::SwitchCheckout(b, next) => match checked(&event) {
                Err(e) => git_error(e),
                Ok(_) => {
                    self.current_branch = b;
                    match next {
                        AfterSwitch::Finish => VcStep::Finished(Ok(VcOutput::Nothing)),
                        AfterSwitch::Merge { target, message } => {
                            let args = args5(
                                "merge",
                                target.0.as_str(),
                                "--no-ff",
                                "-m",
                                message.as_str(),
                            );
                            VcStep::Run(VcTask::MergeRun(target, message), args)
                        },
                        AfterSwitch::CommitMerge { message } => {
                            let ops: Vec<OperationId> = Vec::new();
                            assert(ops@ =~= Seq::<OperationId>::empty());
                            start_commit(
                                CommitRequest {
                                    message,
                                    operation_ids: ops,
                                    commit_type: CommitType::Merge,
                                    after: AfterCommit::Return,
                                },
                            )
                        },
                    }
                },
            },
            VcTask::MergeRun(target, message) => match checked(&event) {
                Err(e) => git_error(e),
                Ok(_) => match self.find_branch(&target) {
                    None => VcStep::Finished(Err(VCError::BranchNotFound(target.0))),
                    Some(_) => {
                        let args = args2("checkout", target.0.as_str());
                        VcStep::Run(
                            VcTask::SwitchCheckout(target, AfterSwitch::CommitMerge { message }),
                            args,
                        )
                    },
                },
            },
            VcTask::History => match checked(&event) {
                Err(e) => git_error(e),
                Ok(out) => match parse_history(out) {
                    Err(e) => VcStep::Finished(Err(VCError::StringError(e))),
                    Ok(v) => VcStep::Finished(Ok(VcOutput::History(v))),
                },
            },
            VcTask::Diff => match checked(&event) {
                Err(e) => git_error(e),
                Ok(out) => VcStep::Finished(Ok(VcOutput::Diff(out.clone()))),
            },
            VcTask::Revert => match checked(&event) {
                Err(e) => git_error(e),
                Ok(_) => VcStep::Finished(Ok(VcOutput::Nothing)),
            },
            VcTask::Configure(k, next) => match &event {
                VcEvent::Git(GitOutcome::NotStarted(e)) => git_error(e.clone()),
                _ => if k < 4 {
                    let args = config_command(&self.config, k + 1);
                    VcStep::Run(VcTask::Configure(k + 1, next), args)
                } else {
                    match next {
                        AfterConfigure::Finish => VcStep::Finished(Ok(VcOutput::Nothing)),
                        AfterConfigure::CreateMain => VcStep::Run(
                            VcTask::BranchCheckout(
                                BranchId::main(),
                                "Main branch".to_string(),
                                AfterCommit::InitialCommit,
                            ),
                            args3("checkout", "-b", "main"),
                        ),
                    }
                },
            },
            VcTask::InitRepo => match &event {
                VcEvent::Git(GitOutcome::NotStarted(e)) => git_error(e.clone()),
                _ => {
                    let args = config_command(&self.config, 1);
                    VcStep::Run(VcTask::Configure(1, AfterConfigure::CreateMain), args)
                },
            },
            VcTask::WriteIgnore => match event {
                VcEvent::Written(Err(e)) => VcStep::Finished(Err(VCError::IoError(e))),
                _ => VcStep::Write(
                    VcTask::WriteReadme,
                    "README.md".to_string(),
                    "# ZCAD Project\n\nCreated with ZCAD.\n".to_string(),
                ),
            },
            VcTask::WriteReadme => match event {
                VcEvent::Written(Err(e)) => VcStep::Finished(Err(VCError::IoError(e))),
                _ => VcStep::Run(VcTask::InitAdd, args2("add", ".")),
            },
            VcTask::InitAdd => match checked(&event) {
                Err(e) => git_error(e),
                Ok(_) => VcStep::Run(VcTask::InitCommit, args3("commit", "-m", "Initial commit")),
            },
            VcTask::InitCommit => match checked(&event) {
                Err(e) => git_error(e),
                Ok(_) => VcStep::Finished(Ok(VcOutput::Nothing)),
            },
            VcTask::LoadBranches => match checked(&event) {
                Err(e) => git_error(e),
                Ok(_) => VcStep::Run(
                    VcTask::LoadCurrentBranch,
                    args3("rev-parse", "--abbrev-ref", "HEAD"),
                ),
            },
            VcTask::LoadCurrentBranch => match checked(&event) {
                Err(e) => git_error(e),
                Ok(out) => {
                    let name = trimmed_text(out);
                    self.current_branch = BranchId(name);
                    VcStep::Finished(Ok(VcOutput::Nothing))
                },
            },
        }
    }

    /// Records a branch: it replaces a known branch of the same name, or
    /// comes last.
    fn insert_branch(&mut self, b: Branch)
        requires
            old(self).wf(),
        ensures
            final(self).wf(),
            final(self).branch_views() == branch_insert(old(self).branch_views(), b@),
            final(self).repo() == old(self).repo(),
            final(self).current() == old(self).current(),
            final(self).cfg() == old(self).cfg(),
            final(self).cache() == old(self).cache(),
            final(self).statistics() == old(self).statistics(),
    {
        let ghost bs0 = self.branch_views();
        let ghost bv = b@;
        match self.find_branch(&b.id) {
            Some(i) => {
                self.branches.remove(i);
                self.branches.insert(i, b);
                proof {
                    lemma_branch_index(bs0, i as int);
                    assert(self.branch_views() =~= bs0.update(i as int, bv));
                }
            },
            None => {
                self.branches.push(b);
                assert(self.branch_views() =~= bs0.push(bv));
            },
        }
        proof {
            let bs1 = self.branch_views();
            assert(bs1 == branch_insert(bs0, bv));
            assert forall|x: int, y: int|
                0 <= x < bs1.len() && 0 <= y < bs1.len() && #[trigger] bs1[x].name
                    == #[trigger] bs1[y].name implies x == y by {
                if x < bs0.len() && bs1[x] != bv {
                    assert(bs1[x] == bs0[x]);
                }
                if y < bs0.len() && bs1[y] != bv {
                    assert(bs1[y] == bs0[y]);
                }
            }
        }
    }
}

} // verus!
