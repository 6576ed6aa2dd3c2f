//! Structured change summaries built from unified-diff text.

use vstd::prelude::*;
use crate::text::{has_prefix, starts_with, space_char, is_space, string_of};

verus! {

/// Kind of change a file went through.
#[derive(Debug, Clone, Copy, PartialEq, Eq, Structural)]
pub enum DiffChangeType {
    Added,
    Modified,
    Deleted,
    Renamed,
}

/// One file of a diff.
#[derive(Debug, Clone)]
pub struct DiffFile {
    pub path: String,
    pub change_type: DiffChangeType,
    pub additions: usize,
    pub deletions: usize,
    pub content: String,
}

/// All files of a diff, with line totals.
#[derive(Debug, Clone)]
pub struct DiffResponse {
    pub files: Vec<DiffFile>,
    pub total_additions: usize,
    pub total_deletions: usize,
}

/// Mathematical form of a [`DiffFile`].
pub struct DiffFileView {
    pub path: Seq<char>,
    pub change_type: DiffChangeType,
    pub additions: nat,
    pub deletions: nat,
    pub content: Seq<char>,
}

impl View for DiffFile {
    type V = DiffFileView;

    open spec fn view(&self) -> DiffFileView {
        DiffFileView {
            path: self.path@,
            change_type: self.change_type,
            additions: self.additions as nat,
            deletions: self.deletions as nat,
            content: self.content@,
        }
    }
}

/// What `str::lines` yields for a text, line by line.
pub uninterp spec fn lines_of(s: Seq<char>) -> Seq<Seq<char>>;

/// Relies on `str::lines`.
#[verifier::external_body]
fn split_lines(s: &str) -> (r: Vec<String>)
    ensures
        r.deep_view() == lines_of(s@),
{
    s.lines().map(|l| l.to_string()).collect()
}

/// The words of `s`: its maximal runs of non-whitespace characters, in
/// order.
pub open spec fn words_of(s: Seq<char>) -> Seq<Seq<char>>
    decreases s.len(),
{
    if s.len() == 0 {
        Seq::empty()
    } else {
        let w = words_of(s.drop_last());
        let c = s.last();
        if space_char(c) {
            w
        } else if s.len() >= 2 && !space_char(s[s.len() - 2]) && w.len() > 0 {
            w.update(w.len() - 1, w.last().push(c))
        } else {
            w.push(seq![c])
        }
    }
}

/// The words of `s`, split at whitespace.
pub fn split_words(s: &str) -> (r: Vec<String>)
    ensures
        r.deep_view() == words_of(s@),
{
    let n = s.unicode_len();
    let mut done: Vec<String> = Vec::new();
    let mut cur: Vec<char> = Vec::new();
    let mut i: usize = 0;
    while i < n
        invariant
            n == s@.len(),
            i <= n,
            ({
                let w = words_of(s@.subrange(0, i as int));
                if cur@.len() > 0 {
                    &&& w.len() > 0
                    &&& done.deep_view() == w.drop_last()
                    &&& cur@ == w.last()
                    &&& i > 0 && !space_char(s@[i - 1])
                } else {
                    &&& done.deep_view() == w
                    &&& (i > 0 ==> space_char(s@[i - 1]))
                }
            }),
        decreases n - i,
    {
        let c = s.get_char(i);
        proof {
            let s1 = s@.subrange(0, i + 1);
            assert(s1.drop_last() =~= s@.subrange(0, i as int));
            assert(s1.last() == c);
            if i >= 1 {
                assert(s1[s1.len() - 2] == s@[i - 1]);
            }
        }
        let ghost w0 = words_of(s@.subrange(0, i as int));
        if is_space(c) {
            if cur.len() > 0 {
                let ghost before = done.deep_view();
                let word = string_of(&cur);
                done.push(word);
                assert(done.deep_view() =~= before.push(word@));
                assert(w0 =~= w0.drop_last().push(w0.last()));
                cur = Vec::new();
            }
        } else {
            cur.push(c);
            proof {
                let w1 = words_of(s@.subrange(0, i + 1));
                if cur@.len() > 1 {
                    assert(w1 == w0.update(w0.len() - 1, w0.last().push(c)));
                    assert(w1.drop_last() =~= w0.drop_last());
                } else {
                    assert(w1 == w0.push(seq![c]));
                    assert(w1.drop_last() =~= w0);
                    assert(cur@ =~= seq![c]);
                }
            }
        }
        i = i + 1;
    }
    assert(s@.subrange(0, n as int) == s@);
    if cur.len() > 0 {
        let ghost w = words_of(s@);
        let ghost before = done.deep_view();
        let word = string_of(&cur);
        done.push(word);
        assert(done.deep_view() =~= before.push(word@));
        assert(w =~= w.drop_last().push(w.last()));
    }
    done
}

/// `s` without one leading `b/`, if it has one.
pub open spec fn trim_b(s: Seq<char>) -> Seq<char> {
    if s.len() >= 2 && s[0] == 'b' && s[1] == '/' {
        s.subrange(2, s.len() as int)
    } else {
        s
    }
}

/// The file record a header line opens, if it names a path: the fourth
/// word without its one `b/` prefix.
pub open spec fn header_file(line: Seq<char>) -> Option<DiffFileView> {
    let w = words_of(line);
    if w.len() >= 4 {
        Some(
            DiffFileView {
                path: trim_b(w[3]),
                change_type: DiffChangeType::Modified,
                additions: 0,
                deletions: 0,
                content: Seq::empty(),
            },
        )
    } else {
        None
    }
}

/// Files closed so far, and the one being read.
pub struct ParseState {
    pub files: Seq<DiffFileView>,
    pub current: Option<DiffFileView>,
}

pub open spec fn with_kind(cur: Option<DiffFileView>, k: DiffChangeType) -> Option<DiffFileView> {
    match cur {
        Some(f) => Some(DiffFileView { change_type: k, ..f }),
        None => None,
    }
}

pub open spec fn is_addition(line: Seq<char>) -> bool {
    has_prefix(line, "+"@) && !has_prefix(line, "+++"@)
}

pub open spec fn is_deletion(line: Seq<char>) -> bool {
    has_prefix(line, "-"@) && !has_prefix(line, "---"@)
}

/// A body line added to the current file: counted, and kept verbatim.
pub open spec fn with_body_line(f: DiffFileView, line: Seq<char>) -> DiffFileView {
    DiffFileView {
        additions: if is_addition(line) { f.additions + 1 } else { f.additions },
        deletions: if !is_addition(line) && is_deletion(line) {
            f.deletions + 1
        } else {
            f.deletions
        },
        content: f.content + line + seq!['\n'],
        ..f
    }
}

/// Effect of one line on the parse state.
pub open spec fn parse_step(st: ParseState, line: Seq<char>) -> ParseState {
    if has_prefix(line, "diff --git"@) {
        ParseState {
            files: match st.current {
                Some(f) => st.files.push(f),
                None => st.files,
            },
            current: header_file(line),
        }
    } else if has_prefix(line, "new file mode"@) {
        ParseState { current: with_kind(st.current, DiffChangeType::Added), ..st }
    } else if has_prefix(line, "deleted file mode"@) {
        ParseState { current: with_kind(st.current, DiffChangeType::Deleted), ..st }
    } else if has_prefix(line, "rename from"@) || has_prefix(line, "rename to"@) {
        ParseState { current: with_kind(st.current, DiffChangeType::Renamed), ..st }
    } else {
        match st.current {
            Some(f) => ParseState { current: Some(with_body_line(f, line)), ..st },
            None => st,
        }
    }
}

/// Parse state after the given lines.
pub open spec fn parse_lines_state(lines: Seq<Seq<char>>) -> ParseState
    decreases lines.len(),
{
    if lines.len() == 0 {
        ParseState { files: Seq::empty(), current: None }
    } else {
        parse_step(parse_lines_state(lines.drop_last()), lines.last())
    }
}

/// Files of a diff given as lines.
pub open spec fn diff_files_of_lines(lines: Seq<Seq<char>>) -> Seq<DiffFileView> {
    let st = parse_lines_state(lines);
    match st.current {
        Some(f) => st.files.push(f),
        None => st.files,
    }
}

/// Files of a diff text.
pub open spec fn diff_files_of(text: Seq<char>) -> Seq<DiffFileView> {
    diff_files_of_lines(lines_of(text))
}

pub open spec fn sum_additions(fs: Seq<DiffFileView>) -> nat
    decreases fs.len(),
{
    if fs.len() == 0 {
        0
    } else {
        sum_additions(fs.drop_last()) + fs.last().additions
    }
}

pub open spec fn sum_deletions(fs: Seq<DiffFileView>) -> nat
    decreases fs.len(),
{
    if fs.len() == 0 {
        0
    } else {
        sum_deletions(fs.drop_last()) + fs.last().deletions
    }
}

/// The file being read, from its parts.
pub open spec fn current_view(
    has: bool,
    path: Seq<char>,
    kind: DiffChangeType,
    adds: usize,
    dels: usize,
    content: Seq<char>,
) -> Option<DiffFileView> {
    if has {
        Some(
            DiffFileView {
                path,
                change_type: kind,
                additions: adds as nat,
                deletions: dels as nat,
                content,
            },
        )
    } else {
        None
    }
}

pub open spec fn files_view(v: Seq<DiffFile>) -> Seq<DiffFileView> {
    v.map_values(|f: DiffFile| f@)
}

/// `s` without one leading `b/`, if it has one.
fn trim_b_prefix(s: &str) -> (r: String)
    ensures
        r@ == trim_b(s@),
{
    let n = s.unicode_len();
    if n >= 2 && s.get_char(0) == 'b' && s.get_char(1) == '/' {
        String::from_str(s.substring_char(2, n))
    } else {
        assert(s@.subrange(0, n as int) == s@);
        String::from_str(s)
    }
}

/// Whether a line counts as an added line.
fn line_is_addition(line: &str) -> (r: bool)
    ensures
        r == is_addition(line@),
{
    starts_with(line, "+") && !starts_with(line, "+++")
}

/// Whether a line counts as a removed line.
fn line_is_deletion(line: &str) -> (r: bool)
    ensures
        r == is_deletion(line@),
{
    starts_with(line, "-") && !starts_with(line, "---")
}

/// Files of a diff given as lines: a `diff --git` header opens a file, the
/// mode and rename markers set its kind, and every other line is counted
/// and kept as its text.
pub fn parse_diff_lines(lines: &Vec<String>) -> (r: Vec<DiffFile>)
    ensures
        files_view(r@) == diff_files_of_lines(lines.deep_view()),
        sum_additions(files_view(r@)) <= lines@.len(),
        sum_deletions(files_view(r@)) <= lines@.len(),
{
    let ghost ls = lines.deep_view();
    let mut files: Vec<DiffFile> = Vec::new();
    let mut has_cur = false;
    let mut path = String::new();
    let mut kind = DiffChangeType::Modified;
    let mut adds: usize = 0;
    let mut dels: usize = 0;
    let mut content = String::new();
    let mut i: usize = 0;
    assert(files_view(files@) =~= Seq::<DiffFileView>::empty());
    assert(ls.subrange(0, 0) =~= Seq::<Seq<char>>::empty());
    while i < lines.len()
        invariant
            ls == lines.deep_view(),
            ls.len() == lines@.len(),
            i <= lines@.len(),
            parse_lines_state(ls.subrange(0, i as int)) == (ParseState {
                files: files_view(files@),
                current: current_view(has_cur, path@, kind, adds, dels, content@),
            }),
            !has_cur ==> adds == 0 && dels == 0,
            sum_additions(files_view(files@)) + adds <= i,
            sum_deletions(files_view(files@)) + dels <= i,
        decreases lines@.len() - i,
    {
        let line = lines[i].as_str();
        let ghost prev = ls.subrange(0, i as int);
        let ghost old_files = files@;
        let ghost st0 = parse_lines_state(prev);
        proof {
            assert(ls.subrange(0, i + 1).drop_last() == prev);
            assert(ls.subrange(0, i + 1).last() == line@);
            assert(ls[i as int] == lines@[i as int]@);
        }
        if starts_with(line, "diff --git") {
            if has_cur {
                files.push(
                    DiffFile {
                        path: path.clone(),
                        change_type: kind,
                        additions: adds,
                        deletions: dels,
                        content: content.clone(),
                    },
                );
                proof {
                    assert(files_view(files@) == files_view(old_files).push(files@.last()@));
                    assert(files_view(files@).drop_last() == files_view(old_files));
                }
            }
            let parts = split_words(line);
            if parts.len() >= 4 {
                proof {
                    assert(parts.deep_view()[3] == parts@[3]@);
                }
                path = trim_b_prefix(parts[3].as_str());
                kind = DiffChangeType::Modified;
                has_cur = true;
            } else {
                has_cur = false;
            }
            adds = 0;
            dels = 0;
            content = String::new();
            proof {
                assert(files_view(files@) == parse_step(st0, line@).files);
                assert(current_view(has_cur, path@, kind, adds, dels, content@) == parse_step(
                    st0,
                    line@,
                ).current);
            }
        } else if starts_with(line, "new file mode") {
            kind = DiffChangeType::Added;
        } else if starts_with(line, "deleted file mode") {
            kind = DiffChangeType::Deleted;
        } else if starts_with(line, "rename from") || starts_with(line, "rename to") {
            kind = DiffChangeType::Renamed;
        } else if has_cur {
            let ghost old_content = content@;
            if line_is_addition(line) {
                adds = adds + 1;
            } else if line_is_deletion(line) {
                dels = dels + 1;
            }
            content.append(line);
            content.append("\n");
            proof {
                reveal_strlit("\n");
                assert(content@ =~= old_content + line@ + seq!['\n']);
                assert(current_view(has_cur, path@, kind, adds, dels, content@) == parse_step(
                    st0,
                    line@,
                ).current);
            }
        }
        assert(parse_lines_state(ls.subrange(0, i + 1)) == parse_step(st0, line@));
        i = i + 1;
    }
    assert(ls.subrange(0, lines@.len() as int) == ls);
    if has_cur {
        let ghost old_files = files@;
        files.push(
            DiffFile { path, change_type: kind, additions: adds, deletions: dels, content },
        );
        proof {
            assert(files_view(files@) == files_view(old_files).push(files@.last()@));
            assert(files_view(files@).drop_last() == files_view(old_files));
        }
    }
    files
}

/// Files of a unified-diff text.
pub fn parse_diff(diff_content: &str) -> (r: Vec<DiffFile>)
    ensures
        files_view(r@) == diff_files_of(diff_content@),
{
    let lines = split_lines(diff_content);
    parse_diff_lines(&lines)
}

/// Change summary of a diff given as lines: its files and the sums of
/// their added and removed lines.
pub fn diff_response_of_lines(lines: &Vec<String>) -> (r: DiffResponse)
    ensures
        files_view(r.files@) == diff_files_of_lines(lines.deep_view()),
        r.total_additions == sum_additions(files_view(r.files@)),
        r.total_deletions == sum_deletions(files_view(r.files@)),
{
    let files = parse_diff_lines(lines);
    let ghost fv = files_view(files@);
    let nl = lines.len();
    let mut adds: usize = 0;
    let mut dels: usize = 0;
    let mut i: usize = 0;
    while i < files.len()
        invariant
            fv == files_view(files@),
            nl == lines@.len(),
            sum_additions(fv) <= lines@.len(),
            sum_deletions(fv) <= lines@.len(),
            i <= files@.len(),
            adds == sum_additions(fv.subrange(0, i as int)),
            dels == sum_deletions(fv.subrange(0, i as int)),
        decreases files@.len() - i,
    {
        proof {
            assert(fv.subrange(0, i + 1).drop_last() == fv.subrange(0, i as int));
            lemma_sums_prefix(fv, i + 1);
            assert(fv.subrange(0, i + 1).last() == fv[i as int]);
            assert(fv[i as int] == files@[i as int]@);
        }
        adds = adds + files[i].additions;
        dels = dels + files[i].deletions;
        i = i + 1;
    }
    assert(fv.subrange(0, files@.len() as int) == fv);
    DiffResponse { files, total_additions: adds, total_deletions: dels }
}

/// Change summary of a unified-diff text.
pub fn diff_response(diff_content: &str) -> (r: DiffResponse)
    ensures
        files_view(r.files@) == diff_files_of(diff_content@),
        r.total_additions == sum_additions(files_view(r.files@)),
        r.total_deletions == sum_deletions(files_view(r.files@)),
{
    let lines = split_lines(diff_content);
    diff_response_of_lines(&lines)
}

/// The summary of a workspace without history or changes.
pub fn empty_diff() -> (r: DiffResponse)
    ensures
        r.files@.len() == 0,
        r.total_additions == 0,
        r.total_deletions == 0,
{
    DiffResponse { files: Vec::new(), total_additions: 0, total_deletions: 0 }
}

/// Sums over a prefix never exceed the sums over the whole.
proof fn lemma_sums_prefix(fs: Seq<DiffFileView>, k: int)
    requires
        0 <= k <= fs.len(),
    ensures
        sum_additions(fs.subrange(0, k)) <= sum_additions(fs),
        sum_deletions(fs.subrange(0, k)) <= sum_deletions(fs),
    decreases fs.len(),
{
    if k < fs.len() {
        assert(fs.drop_last().subrange(0, k) == fs.subrange(0, k));
        lemma_sums_prefix(fs.drop_last(), k);
    } else {
        assert(fs.subrange(0, k) == fs);
    }
}

} // verus!
