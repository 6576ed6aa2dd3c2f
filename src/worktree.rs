//! Workspace management: where each task's branch and working directory
//! live, and what the outcomes of the git toolchain mean.

use vstd::prelude::*;
use crate::slug::{workspace_slug, workspace_slug_of, generate_branch_name, branch_name_of};
use crate::text::{contains_text, occurs_in};
use crate::task::Task;

verus! {

/// Failures of workspace operations.
#[derive(Debug, Clone)]
pub enum WorktreeError {
    /// The git toolchain failed; the text says how.
    Git(String),
    /// A filesystem operation failed.
    Io(String),
    NotARepo,
    BranchExists(String),
    WorktreeExists(String),
    BranchNotFound(String),
    /// The merge met conflicting changes and was aborted.
    MergeConflict(String),
}

impl WorktreeError {
    /// Human-readable description.
    pub fn message(&self) -> (r: String)
        ensures
            r@ == error_text(*self),
    {
        let (head, body): (&str, Option<&String>) = match self {
            WorktreeError::Git(s) => ("Git error: ", Some(s)),
            WorktreeError::Io(s) => ("IO error: ", Some(s)),
            WorktreeError::NotARepo => ("Not a git repository", None),
            WorktreeError::BranchExists(s) => ("Branch already exists: ", Some(s)),
            WorktreeError::WorktreeExists(s) => ("Worktree already exists: ", Some(s)),
            WorktreeError::BranchNotFound(s) => ("Branch not found: ", Some(s)),
            WorktreeError::MergeConflict(s) => ("Merge conflict: ", Some(s)),
        };
        let mut r = String::from_str(head);
        match body {
            Some(s) => r.append(s.as_str()),
            None => {},
        }
        r
    }
}

/// Text form of an error.
pub open spec fn error_text(e: WorktreeError) -> Seq<char> {
    match e {
        WorktreeError::Git(s) => "Git error: "@ + s@,
        WorktreeError::Io(s) => "IO error: "@ + s@,
        WorktreeError::NotARepo => "Not a git repository"@,
        WorktreeError::BranchExists(s) => "Branch already exists: "@ + s@,
        WorktreeError::WorktreeExists(s) => "Worktree already exists: "@ + s@,
        WorktreeError::BranchNotFound(s) => "Branch not found: "@ + s@,
        WorktreeError::MergeConflict(s) => "Merge conflict: "@ + s@,
    }
}

/// `a` and `b` joined as paths with one separator between them.
pub open spec fn path_join(a: Seq<char>, b: Seq<char>) -> Seq<char> {
    if a.len() == 0 {
        b
    } else if a.last() == '/' {
        a + b
    } else {
        a + seq!['/'] + b
    }
}

/// Joins a relative path onto a directory.
pub fn join_path(a: &str, b: &str) -> (r: String)
    ensures
        r@ == path_join(a@, b@),
{
    let n = a.unicode_len();
    let mut r = String::from_str(a);
    if n > 0 && a.get_char(n - 1) != '/' {
        r.append("/");
        proof {
            reveal_strlit("/");
        }
    }
    r.append(b);
    proof {
        if n > 0 && a@.last() != '/' {
            assert(r@ =~= a@ + seq!['/'] + b@);
        }
    }
    r
}

/// Lowercase hexadecimal digit of a value below sixteen.
pub open spec fn hex_digit(d: nat) -> char {
    "0123456789abcdef"@[d as int]
}

/// Lowercase hexadecimal form of a number, without leading zeros.
pub open spec fn hex_of(n: nat) -> Seq<char>
    decreases n,
{
    if n < 16 {
        seq![hex_digit(n)]
    } else {
        hex_of(n / 16).push(hex_digit(n % 16))
    }
}

/// Directory name of a repository's workspaces: the first eight hex
/// digits of its path hash.
pub open spec fn hash_dir_of(h: u64) -> Seq<char> {
    let x = hex_of(h as nat);
    if x.len() > 8 {
        x.subrange(0, 8)
    } else {
        x
    }
}

/// What std's `DefaultHasher`, made by `new`, yields for a path. Such
/// hashers are unseeded and alike, so the value depends on the path alone.
pub uninterp spec fn path_hash_of(s: Seq<char>) -> u64;

/// Relies on std's `DefaultHasher` (through `BuildHasherDefault`, which
/// makes it with `new`) to hash a repository path.
#[verifier::external_body]
fn path_hash(s: &str) -> (r: u64)
    ensures
        r == path_hash_of(s@),
{
    std::hash::BuildHasher::hash_one(
        &std::hash::BuildHasherDefault::<std::collections::hash_map::DefaultHasher>::default(),
        s,
    )
}

/// Lowercase hexadecimal form of `n`.
pub fn hex_string(n: u64) -> (r: Vec<char>)
    ensures
        r@ == hex_of(n as nat),
{
    let digits = "0123456789abcdef";
    proof {
        reveal_strlit("0123456789abcdef");
    }
    let mut out: Vec<char> = Vec::new();
    let mut cur: u64 = n;
    while cur >= 16
        invariant
            digits@ == "0123456789abcdef"@,
            digits@.len() == 16,
            hex_of(n as nat) == hex_of(cur as nat) + out@,
        decreases cur,
    {
        let d = digits.get_char((cur % 16) as usize);
        let ghost before = out@;
        out.insert(0, d);
        proof {
            assert(hex_of(cur as nat) == hex_of((cur / 16) as nat).push(d));
            assert(out@ =~= seq![d] + before);
            assert(hex_of(cur as nat) + before =~= hex_of((cur / 16) as nat) + out@);
        }
        cur = cur / 16;
    }
    let d = digits.get_char(cur as usize);
    let ghost before = out@;
    out.insert(0, d);
    assert(out@ =~= seq![d] + before);
    assert(hex_of(cur as nat) == seq![d]);
    out
}

/// Directory name for the workspaces of a repository whose path hashes
/// to `h`.
pub fn hash_dir_name(h: u64) -> (r: String)
    ensures
        r@ == hash_dir_of(h),
{
    let x = hex_string(h);
    let mut cut: Vec<char> = Vec::new();
    let mut i: usize = 0;
    while i < x.len() && i < 8
        invariant
            i <= x@.len(),
            i <= 8,
            cut@ == x@.subrange(0, i as int),
        decreases x@.len() - i,
    {
        cut.push(x[i]);
        i = i + 1;
    }
    assert(x@.len() <= 8 ==> x@.subrange(0, x@.len() as int) == x@);
    crate::text::string_of(&cut)
}

/// Workspaces of one repository, kept under a base directory in a
/// subdirectory named after a hash of the repository path.
pub struct WorktreeManager {
    pub repo_path: String,
    pub worktrees_base_dir: String,
    /// Name of the repository's directory under the base.
    pub project_hash: String,
}

impl WorktreeManager {
    pub fn new(repo_path: String, worktrees_base_dir: String) -> (r: WorktreeManager)
        ensures
            r.repo_path == repo_path,
            r.worktrees_base_dir == worktrees_base_dir,
            r.project_hash@ == hash_dir_of(path_hash_of(repo_path@)),
    {
        let h = path_hash(repo_path.as_str());
        let project_hash = hash_dir_name(h);
        WorktreeManager { repo_path, worktrees_base_dir, project_hash }
    }

    /// Directory that holds this repository's workspaces.
    pub open spec fn project_dir(&self) -> Seq<char> {
        path_join(self.worktrees_base_dir@, self.project_hash@)
    }

    /// Directory of this repository's workspaces.
    pub fn get_project_dir(&self) -> (r: String)
        ensures
            r@ == self.project_dir(),
    {
        join_path(self.worktrees_base_dir.as_str(), self.project_hash.as_str())
    }

    /// Directory of the workspace named `task_slug`.
    pub fn get_worktree_path(&self, task_slug: &str) -> (r: String)
        ensures
            r@ == path_join(self.project_dir(), task_slug@),
    {
        let dir = self.get_project_dir();
        join_path(dir.as_str(), task_slug)
    }

    /// Branch and directory of a task's workspace.
    pub fn workspace_for(&self, task_title: &str, task_id: &str) -> (r: (String, String))
        ensures
            r.0@ == branch_name_of(task_title@, task_id@),
            r.1@ == path_join(self.project_dir(), workspace_slug_of(task_title@, task_id@)),
    {
        let branch = generate_branch_name(task_title, task_id);
        let slug = workspace_slug(task_title, task_id);
        let path = self.get_worktree_path(slug.as_str());
        (branch, path)
    }
}

/// Whether a workspace may be created: not when its directory is already
/// there, nor when its branch is.
pub fn check_new_workspace(
    branch_name: &str,
    worktree_path: &str,
    dir_exists: bool,
    branch_exists: bool,
) -> (r: Result<(), WorktreeError>)
    ensures
        dir_exists ==> (r matches Err(WorktreeError::WorktreeExists(p)) && p@ == worktree_path@),
        !dir_exists && branch_exists ==> (r matches Err(WorktreeError::BranchExists(b)) && b@
            == branch_name@),
        !dir_exists && !branch_exists ==> r is Ok,
{
    if dir_exists {
        Err(WorktreeError::WorktreeExists(String::from_str(worktree_path)))
    } else if branch_exists {
        Err(WorktreeError::BranchExists(String::from_str(branch_name)))
    } else {
        Ok(())
    }
}

/// Whether the toolchain's error text reports a merge conflict.
pub open spec fn reports_conflict(stderr: Seq<char>) -> bool {
    occurs_in(stderr, "CONFLICT"@) || occurs_in(stderr, "conflict"@)
}

/// The error of a failed merge: a conflict when the toolchain's text says
/// so, which tells the caller to abort the merge; otherwise a git failure.
pub fn classify_merge_failure(stderr: &str) -> (r: WorktreeError)
    ensures
        reports_conflict(stderr@) ==> (r matches WorktreeError::MergeConflict(s) && s@
            == stderr@),
        !reports_conflict(stderr@) ==> (r matches WorktreeError::Git(s) && s@
            == "Failed to merge branch: "@ + stderr@),
{
    if contains_text(stderr, "CONFLICT") || contains_text(stderr, "conflict") {
        WorktreeError::MergeConflict(String::from_str(stderr))
    } else {
        let mut s = String::from_str("Failed to merge branch: ");
        s.append(stderr);
        WorktreeError::Git(s)
    }
}

/// The error when the main branch cannot be checked out before a merge.
pub fn checkout_failure(stderr: &str) -> (r: WorktreeError)
    ensures
        r matches WorktreeError::Git(s) && s@ == "Failed to checkout main: "@ + stderr@,
{
    let mut s = String::from_str("Failed to checkout main: ");
    s.append(stderr);
    WorktreeError::Git(s)
}

/// Whether a failed branch deletion only means the branch is already gone.
pub fn branch_already_gone(stderr: &str) -> (r: bool)
    ensures
        r == occurs_in(stderr@, "not found"@),
{
    contains_text(stderr, "not found")
}

/// Whether `v` holds `s`.
fn holds(v: &Vec<String>, s: &String) -> (r: bool)
    ensures
        r == v.deep_view().contains(s@),
{
    let mut i: usize = 0;
    while i < v.len()
        invariant
            i <= v@.len(),
            forall|j: int| 0 <= j < i ==> #[trigger] v@[j]@ != s@,
        decreases v@.len() - i,
    {
        if v[i] == *s {
            assert(v.deep_view()[i as int] == s@);
            return true;
        }
        i = i + 1;
    }
    proof {
        if v.deep_view().contains(s@) {
            let k = choose|k: int| 0 <= k < v.deep_view().len() && v.deep_view()[k] == s@;
            assert(v@[k]@ == s@);
        }
    }
    false
}

/// The on-disk workspaces that no valid path names, in their order.
pub open spec fn orphans_of(on_disk: Seq<Seq<char>>, valid: Seq<Seq<char>>) -> Seq<Seq<char>> {
    on_disk.filter(|p: Seq<char>| !valid.contains(p))
}

/// The workspaces to remove in an orphan sweep: every one on disk whose
/// path is not among the valid ones, each kept once per listing.
pub fn select_orphans(on_disk: &Vec<String>, valid_paths: &Vec<String>) -> (r: Vec<String>)
    ensures
        r.deep_view() == orphans_of(on_disk.deep_view(), valid_paths.deep_view()),
{
    let ghost d = on_disk.deep_view();
    let ghost vp = valid_paths.deep_view();
    let mut out: Vec<String> = Vec::new();
    let mut i: usize = 0;
    while i < on_disk.len()
        invariant
            d == on_disk.deep_view(),
            vp == valid_paths.deep_view(),
            i <= on_disk@.len(),
            out.deep_view() == orphans_of(d.subrange(0, i as int), vp),
        decreases on_disk@.len() - i,
    {
        let ghost before = out.deep_view();
        proof {
            let s1 = d.subrange(0, i + 1);
            assert(s1.drop_last() =~= d.subrange(0, i as int));
            assert(s1.last() == on_disk@[i as int]@);
            s1.filter_lemma(|p: Seq<char>| !vp.contains(p));
            assert(s1.filter(|p: Seq<char>| !vp.contains(p)) == s1.drop_last().filter(
                |p: Seq<char>| !vp.contains(p),
            ) + if !vp.contains(s1.last()) {
                seq![s1.last()]
            } else {
                Seq::empty()
            }) by {
                reveal(Seq::filter);
                assert(s1.filter(|p: Seq<char>| !vp.contains(p)) == {
                    let out = s1.drop_last().filter(|p: Seq<char>| !vp.contains(p));
                    if !vp.contains(s1.last()) {
                        out.push(s1.last())
                    } else {
                        out
                    }
                });
            }
        }
        if !holds(valid_paths, &on_disk[i]) {
            out.push(on_disk[i].clone());
            assert(out.deep_view() =~= before + seq![on_disk@[i as int]@]);
        } else {
            assert(before + Seq::<Seq<char>>::empty() =~= before);
        }
        i = i + 1;
    }
    assert(d.subrange(0, on_disk@.len() as int) == d);
    out
}

/// Workspace paths recorded on tasks, in task order.
pub open spec fn recorded_paths(tasks: Seq<Task>) -> Seq<Seq<char>>
    decreases tasks.len(),
{
    if tasks.len() == 0 {
        Seq::empty()
    } else {
        recorded_paths(tasks.drop_last()) + match tasks.last().worktree_path {
            Some(p) => seq![p@],
            None => Seq::empty(),
        }
    }
}

/// The workspace paths that persisted tasks still own.
pub fn recorded_worktree_paths(tasks: &Vec<Task>) -> (r: Vec<String>)
    ensures
        r.deep_view() == recorded_paths(tasks@),
{
    let mut out: Vec<String> = Vec::new();
    let mut i: usize = 0;
    while i < tasks.len()
        invariant
            i <= tasks@.len(),
            out.deep_view() == recorded_paths(tasks@.subrange(0, i as int)),
        decreases tasks@.len() - i,
    {
        let ghost before = out.deep_view();
        proof {
            let s1 = tasks@.subrange(0, i + 1);
            assert(s1.drop_last() =~= tasks@.subrange(0, i as int));
            assert(s1.last() == tasks@[i as int]);
        }
        match &tasks[i].worktree_path {
            Some(p) => {
                out.push(p.clone());
                assert(out.deep_view() =~= before + seq![p@]);
            },
            None => {
                assert(before + Seq::<Seq<char>>::empty() =~= before);
            },
        }
        i = i + 1;
    }
    assert(tasks@.subrange(0, tasks@.len() as int) == tasks@);
    out
}

/// Every orphan is on disk and not valid, and every on-disk path that is
/// not valid is an orphan.
pub proof fn lemma_orphans_exact(on_disk: Seq<Seq<char>>, valid: Seq<Seq<char>>, x: Seq<char>)
    ensures
        orphans_of(on_disk, valid).contains(x) <==> (on_disk.contains(x) && !valid.contains(x)),
{
    let f = |p: Seq<char>| !valid.contains(p);
    let o = orphans_of(on_disk, valid);
    assert(o == on_disk.filter(f));
    on_disk.filter_lemma(f);
    if o.contains(x) {
        let j = choose|j: int| 0 <= j < o.len() && o[j] == x;
        assert(f(o[j]));
        lemma_filter_within(on_disk, f, x);
    }
    if on_disk.contains(x) && !valid.contains(x) {
        let k = choose|k: int| 0 <= k < on_disk.len() && on_disk[k] == x;
        assert(o.contains(on_disk[k]));
    }
}

proof fn lemma_filter_within(s: Seq<Seq<char>>, f: spec_fn(Seq<char>) -> bool, x: Seq<char>)
    requires
        s.filter(f).contains(x),
    ensures
        s.contains(x),
    decreases s.len(),
{
    reveal(Seq::filter);
    if s.len() > 0 {
        let t = s.drop_last().filter(f);
        if f(s.last()) {
            assert(s.filter(f) == t.push(s.last()));
        } else {
            assert(s.filter(f) == t);
        }
        if x == s.last() {
            assert(s[s.len() - 1] == x);
        } else {
            let j = choose|j: int| 0 <= j < s.filter(f).len() && s.filter(f)[j] == x;
            if f(s.last()) {
                assert(j < t.len());
                assert(t[j] == x);
            }
            assert(t.contains(x));
            lemma_filter_within(s.drop_last(), f, x);
            let k = choose|k: int| 0 <= k < s.drop_last().len() && s.drop_last()[k] == x;
            assert(s[k] == x);
        }
    } else {
        assert(s.filter(f).len() == 0);
    }
}

/// Relies on `dirs::home_dir`: the user's home directory, when one is
/// known. Nothing is stated of the value.
#[verifier::external_body]
fn home_dir() -> (r: Option<String>) {
    dirs::home_dir().map(|p| p.to_string_lossy().to_string())
}

/// The library's data directory under a home directory, or relative to
/// the working directory when none is known.
pub open spec fn data_dir_of(home: Option<Seq<char>>) -> Seq<char> {
    match home {
        Some(h) => path_join(h, ".eval-kanban"@),
        None => ".eval-kanban"@,
    }
}

/// Data directory for the given home directory.
pub fn data_dir_for(home: Option<&str>) -> (r: String)
    ensures
        r@ == data_dir_of(
            match home {
                Some(h) => Some(h@),
                None => None,
            },
        ),
{
    match home {
        Some(h) => join_path(h, ".eval-kanban"),
        None => String::from_str(".eval-kanban"),
    }
}

/// The data directory under the current user's home.
pub fn get_data_dir() -> (r: String)
    ensures
        exists|home: Option<Seq<char>>| r@ == data_dir_of(home),
{
    let home = home_dir();
    match &home {
        Some(h) => data_dir_for(Some(h.as_str())),
        None => data_dir_for(None),
    }
}

/// The directory that holds all workspaces.
pub fn get_worktrees_dir() -> (r: String)
    ensures
        exists|home: Option<Seq<char>>| r@ == path_join(data_dir_of(home), "worktrees"@),
{
    let d = get_data_dir();
    join_path(d.as_str(), "worktrees")
}

} // verus!
