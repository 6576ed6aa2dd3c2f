//! Branch and workspace naming: a slug of the task title plus a short
//! fragment of the task id.

use vstd::prelude::*;
use crate::text::{alnum_char, lower_of, lowercase, is_alnum, string_of};

verus! {

/// Longest slug, in characters.
pub const SLUG_MAX: usize = 50;

/// Characters of the task id kept in names.
pub const ID_FRAGMENT: usize = 8;

/// What one character of the lowercased title contributes: itself when
/// alphanumeric, a hyphen otherwise.
pub open spec fn slug_piece(c: char) -> Seq<char> {
    if alnum_char(c) {
        seq![c]
    } else {
        seq!['-']
    }
}

/// The title with every character replaced by its piece.
pub open spec fn kept(s: Seq<char>) -> Seq<char>
    decreases s.len(),
{
    if s.len() == 0 {
        Seq::empty()
    } else {
        kept(s.drop_last()) + slug_piece(s.last())
    }
}

/// Hyphen runs collapsed to one hyphen, with none at either end: a
/// non-hyphen is preceded by a hyphen exactly when one stands before it in
/// `s` and it is not the first non-hyphen.
pub open spec fn squeezed(s: Seq<char>) -> Seq<char>
    decreases s.len(),
{
    if s.len() == 0 {
        Seq::empty()
    } else {
        let r = squeezed(s.drop_last());
        let c = s.last();
        if c == '-' {
            r
        } else if s.len() >= 2 && s[s.len() - 2] == '-' && r.len() > 0 {
            r + seq!['-', c]
        } else {
            r.push(c)
        }
    }
}

/// At most the first `n` characters of `s`.
pub open spec fn first_n(s: Seq<char>, n: nat) -> Seq<char> {
    if s.len() > n {
        s.subrange(0, n as int)
    } else {
        s
    }
}

/// Slug of an already lowercased title.
pub open spec fn slug_of_lowered(l: Seq<char>) -> Seq<char> {
    first_n(squeezed(kept(l)), SLUG_MAX as nat)
}

/// Slug of a title.
pub open spec fn slug_of(title: Seq<char>) -> Seq<char> {
    slug_of_lowered(lower_of(title))
}

/// The short id fragment used for uniqueness.
pub open spec fn id_fragment(id: Seq<char>) -> Seq<char> {
    first_n(id, ID_FRAGMENT as nat)
}

/// Directory name of a task's workspace: slug, hyphen, id fragment.
pub open spec fn workspace_slug_of(title: Seq<char>, id: Seq<char>) -> Seq<char> {
    slug_of(title) + seq!['-'] + id_fragment(id)
}

/// Branch name of a task: the namespace tag, then the workspace slug.
pub open spec fn branch_name_of(title: Seq<char>, id: Seq<char>) -> Seq<char> {
    "ek/"@ + workspace_slug_of(title, id)
}

/// Slug of a title that has already been lowercased.
pub fn slug_of_lowercase(l: &str) -> (r: String)
    ensures
        r@ == slug_of_lowered(l@),
        r@.len() <= SLUG_MAX,
{
    let n = l.unicode_len();
    let mut pieces: Vec<char> = Vec::new();
    let mut i: usize = 0;
    while i < n
        invariant
            n == l@.len(),
            i <= n,
            pieces@ == kept(l@.subrange(0, i as int)),
        decreases n - i,
    {
        let c = l.get_char(i);
        let ghost before = pieces@;
        if is_alnum(c) {
            pieces.push(c);
        } else {
            pieces.push('-');
        }
        proof {
            let s = l@.subrange(0, i + 1);
            assert(s.drop_last() == l@.subrange(0, i as int));
            assert(s.last() == c);
            assert(pieces@ == before + slug_piece(c));
        }
        i = i + 1;
    }
    assert(l@.subrange(0, n as int) == l@);
    let k = pieces.len();
    let mut out: Vec<char> = Vec::new();
    let mut j: usize = 0;
    while j < k
        invariant
            k == pieces@.len(),
            pieces@ == kept(l@),
            j <= k,
            out@ == squeezed(pieces@.subrange(0, j as int)),
        decreases k - j,
    {
        let c = pieces[j];
        proof {
            let s = pieces@.subrange(0, j + 1);
            assert(s.drop_last() == pieces@.subrange(0, j as int));
            assert(s.last() == c);
            if j >= 1 {
                assert(s[s.len() - 2] == pieces@[j - 1]);
            }
        }
        if c != '-' {
            if j >= 1 && pieces[j - 1] == '-' && out.len() > 0 {
                out.push('-');
            }
            out.push(c);
        }
        j = j + 1;
    }
    assert(pieces@.subrange(0, k as int) == pieces@);
    let mut cut: Vec<char> = Vec::new();
    let mut t: usize = 0;
    while t < out.len() && t < SLUG_MAX
        invariant
            t <= out@.len(),
            t <= SLUG_MAX,
            cut@ == out@.subrange(0, t as int),
        decreases out@.len() - t,
    {
        cut.push(out[t]);
        t = t + 1;
    }
    assert(cut@ == first_n(out@, SLUG_MAX as nat));
    string_of(&cut)
}

/// Slug of a task title: lowercase, each run of non-alphanumeric
/// characters becomes one hyphen, no hyphen at either end, at most fifty
/// characters.
pub fn slugify(title: &str) -> (r: String)
    ensures
        r@ == slug_of(title@),
        r@.len() <= SLUG_MAX,
{
    let l = lowercase(title);
    slug_of_lowercase(l.as_str())
}

/// The first characters of a task id, at most eight.
pub fn id_fragment_of(id: &str) -> (r: String)
    ensures
        r@ == id_fragment(id@),
{
    let n = id.unicode_len();
    let end = if n > ID_FRAGMENT { ID_FRAGMENT } else { n };
    String::from_str(id.substring_char(0, end))
}

/// Directory name for a task's workspace.
pub fn workspace_slug(title: &str, task_id: &str) -> (r: String)
    ensures
        r@ == workspace_slug_of(title@, task_id@),
{
    let mut r = slugify(title);
    r.append("-");
    let frag = id_fragment_of(task_id);
    r.append(frag.as_str());
    proof {
        reveal_strlit("-");
    }
    r
}

/// Branch name for a task: `ek/`, the slug, a hyphen and the id fragment.
pub fn generate_branch_name(title: &str, task_id: &str) -> (r: String)
    ensures
        r@ == branch_name_of(title@, task_id@),
{
    let mut r = String::from_str("ek/");
    let w = workspace_slug(title, task_id);
    r.append(w.as_str());
    r
}

/// Two ids whose fragments differ give different branch names for the same
/// title: the names share everything up to the fragment, and differ there.
pub proof fn lemma_branch_names_distinct(title: Seq<char>, id1: Seq<char>, id2: Seq<char>)
    requires
        id_fragment(id1) != id_fragment(id2),
    ensures
        branch_name_of(title, id1) != branch_name_of(title, id2),
{
    let p = "ek/"@ + slug_of(title) + seq!['-'];
    assert(branch_name_of(title, id1) == p + id_fragment(id1));
    assert(branch_name_of(title, id2) == p + id_fragment(id2));
    if branch_name_of(title, id1) == branch_name_of(title, id2) {
        let b = branch_name_of(title, id1);
        assert(b.subrange(p.len() as int, b.len() as int) == id_fragment(id1));
        assert(b.subrange(p.len() as int, b.len() as int) == id_fragment(id2));
    }
}

} // verus!
