//! Facts about the project directory: its name, the agent configuration
//! text generated for it, and the descriptions the server hands out.

use vstd::prelude::*;
use crate::text::{lower_of, lowercase, string_of, space_char, is_space};

verus! {

/// `s` with its trailing slashes removed.
pub open spec fn trim_slashes(s: Seq<char>) -> Seq<char>
    decreases s.len(),
{
    if s.len() > 0 && s.last() == '/' {
        trim_slashes(s.drop_last())
    } else {
        s
    }
}

/// Position just after the last slash of `s`, or zero.
pub open spec fn after_last_slash(s: Seq<char>) -> int
    decreases s.len(),
{
    if s.len() == 0 {
        0
    } else if s.last() == '/' {
        s.len() as int
    } else {
        after_last_slash(s.drop_last())
    }
}

/// Last component of a path, if it names a file or directory.
pub open spec fn file_name_of(path: Seq<char>) -> Option<Seq<char>> {
    let t = trim_slashes(path);
    let last = t.subrange(after_last_slash(t), t.len() as int);
    if last.len() == 0 || last == ".."@ {
        None
    } else {
        Some(last)
    }
}

/// Last component of a path.
pub fn file_name(path: &str) -> (r: Option<String>)
    ensures
        match (r, file_name_of(path@)) {
            (Some(a), Some(b)) => a@ == b,
            (None, None) => true,
            _ => false,
        },
{
    let mut end = path.unicode_len();
    assert(path@.subrange(0, end as int) == path@);
    while end > 0 && path.get_char(end - 1) == '/'
        invariant
            end <= path@.len(),
            trim_slashes(path@) == trim_slashes(path@.subrange(0, end as int)),
        decreases end,
    {
        assert(path@.subrange(0, end as int).drop_last() == path@.subrange(0, end - 1));
        end = end - 1;
    }
    let ghost t = path@.subrange(0, end as int);
    assert(trim_slashes(t) == t);
    let mut start = end;
    while start > 0 && path.get_char(start - 1) != '/'
        invariant
            start <= end <= path@.len(),
            t == path@.subrange(0, end as int),
            after_last_slash(t) == after_last_slash(path@.subrange(0, start as int)),
        decreases start,
    {
        assert(path@.subrange(0, start as int).drop_last() == path@.subrange(0, start - 1));
        start = start - 1;
    }
    proof {
        let u = path@.subrange(0, start as int);
        if start > 0 {
            assert(u.last() == '/');
        }
        assert(after_last_slash(u) == start);
    }
    let last = path.substring_char(start, end);
    assert(trim_slashes(path@) == t);
    assert(last@ =~= t.subrange(after_last_slash(t), t.len() as int));
    if start == end || crate::status::str_eq(last, "..") {
        None
    } else {
        assert(last@ == t.subrange(start as int, t.len() as int));
        Some(String::from_str(last))
    }
}

/// `s` with every space replaced by a hyphen.
pub open spec fn spaces_to_hyphens(s: Seq<char>) -> Seq<char> {
    s.map_values(|c: char| if c == ' ' { '-' } else { c })
}

/// Name used for a project directory: its last component, or `project`.
pub open spec fn project_name_of(path: Seq<char>) -> Seq<char> {
    match file_name_of(path) {
        Some(n) => n,
        None => "project"@,
    }
}

pub open spec fn commands_section(has_package_json: bool, has_cargo_toml: bool) -> Seq<char> {
    if has_package_json {
        "## Comandos\n- `npm run dev` - Desenvolvimento\n- `npm test` - Testes\n- `npm run build` - Build"@
    } else if has_cargo_toml {
        "## Comandos\n- `cargo run` - Desenvolvimento\n- `cargo test` - Testes\n- `cargo build --release` - Build"@
    } else {
        "## Comandos\n(adicione os comandos do projeto aqui)"@
    }
}

/// The project-level agent instructions generated for a directory.
pub open spec fn project_claude_md(path: Seq<char>, has_package_json: bool, has_cargo_toml: bool) -> Seq<char> {
    let name = project_name_of(path);
    "# "@ + name + "\n\n"@ + commands_section(has_package_json, has_cargo_toml)
        + "\n\n## Estrutura\n(adicione a estrutura do projeto aqui)\n\n## Memory Namespace\nPrefixo: `"@
        + spaces_to_hyphens(lower_of(name)) + ":`\n"@
}

/// `s` with every space replaced by a hyphen.
pub fn hyphenate(s: &str) -> (r: String)
    ensures
        r@ == spaces_to_hyphens(s@),
{
    let n = s.unicode_len();
    let mut v: Vec<char> = Vec::new();
    let mut i: usize = 0;
    while i < n
        invariant
            n == s@.len(),
            i <= n,
            v@ == spaces_to_hyphens(s@.subrange(0, i as int)),
        decreases n - i,
    {
        let c = s.get_char(i);
        v.push(if c == ' ' { '-' } else { c });
        assert(v@ =~= spaces_to_hyphens(s@.subrange(0, i + 1)));
        i = i + 1;
    }
    assert(s@.subrange(0, n as int) == s@);
    string_of(&v)
}

/// Project-level agent instructions for the directory at `project_dir`:
/// its name as title, the build commands of the detected project kind,
/// and a memory namespace derived from the name.
pub fn generate_project_claude_md(
    project_dir: &str,
    has_package_json: bool,
    has_cargo_toml: bool,
) -> (r: String)
    ensures
        r@ == project_claude_md(project_dir@, has_package_json, has_cargo_toml),
{
    let name = match file_name(project_dir) {
        Some(n) => n,
        None => String::from_str("project"),
    };
    let commands = if has_package_json {
        "## Comandos\n- `npm run dev` - Desenvolvimento\n- `npm test` - Testes\n- `npm run build` - Build"
    } else if has_cargo_toml {
        "## Comandos\n- `cargo run` - Desenvolvimento\n- `cargo test` - Testes\n- `cargo build --release` - Build"
    } else {
        "## Comandos\n(adicione os comandos do projeto aqui)"
    };
    let lowered = lowercase(name.as_str());
    let slug = hyphenate(lowered.as_str());
    let mut r = String::from_str("# ");
    r.append(name.as_str());
    r.append("\n\n");
    r.append(commands);
    r.append(
        "\n\n## Estrutura\n(adicione a estrutura do projeto aqui)\n\n## Memory Namespace\nPrefixo: `",
    );
    r.append(slug.as_str());
    r.append(":`\n");
    r
}

/// What the configuration setup did at each level.
#[derive(Debug, Clone, Copy, PartialEq, Eq, Structural)]
pub struct SetupResult {
    pub global_created: bool,
    pub global_updated: bool,
    pub local_created: bool,
    pub local_updated: bool,
}

/// Combines the (created, updated) outcomes of the global and the local
/// configuration setup.
pub fn ensure_config(global: (bool, bool), local: (bool, bool)) -> (r: SetupResult)
    ensures
        r.global_created == global.0,
        r.global_updated == global.1,
        r.local_created == local.0,
        r.local_updated == local.1,
{
    SetupResult {
        global_created: global.0,
        global_updated: global.1,
        local_created: local.0,
        local_updated: local.1,
    }
}

/// Name and path of the served project.
#[derive(Debug, Clone)]
pub struct ServerInfo {
    pub name: String,
    pub path: String,
}

impl ServerInfo {
    /// Describes the project at `path`; its name is the last component,
    /// or `root`.
    pub fn for_path(path: &str) -> (r: ServerInfo)
        ensures
            r.path@ == path@,
            r.name@ == match file_name_of(path@) {
                Some(n) => n,
                None => "root"@,
            },
    {
        let name = match file_name(path) {
            Some(n) => n,
            None => String::from_str("root"),
        };
        ServerInfo { name, path: String::from_str(path) }
    }
}

/// Decimal digits of a number.
pub open spec fn decimal_of(n: nat) -> Seq<char>
    decreases n,
{
    if n < 10 {
        seq!["0123456789"@[n as int]]
    } else {
        decimal_of(n / 10).push("0123456789"@[(n % 10) as int])
    }
}

/// Decimal text of a number.
pub fn decimal_string(n: u64) -> (r: String)
    ensures
        r@ == decimal_of(n as nat),
{
    let digits = "0123456789";
    proof {
        reveal_strlit("0123456789");
    }
    let mut out: Vec<char> = Vec::new();
    let mut cur: u64 = n;
    while cur >= 10
        invariant
            digits@ == "0123456789"@,
            digits@.len() == 10,
            decimal_of(n as nat) == decimal_of(cur as nat) + out@,
        decreases cur,
    {
        let d = digits.get_char((cur % 10) as usize);
        let ghost before = out@;
        out.insert(0, d);
        proof {
            assert(decimal_of(cur as nat) == decimal_of((cur / 10) as nat).push(d));
            assert(out@ =~= seq![d] + before);
            assert(decimal_of(cur as nat) + before =~= decimal_of((cur / 10) as nat) + out@);
        }
        cur = cur / 10;
    }
    let d = digits.get_char(cur as usize);
    let ghost before = out@;
    out.insert(0, d);
    assert(out@ =~= seq![d] + before);
    assert(decimal_of(cur as nat) == seq![d]);
    string_of(&out)
}

/// State of a task's preview servers.
#[derive(Debug, Clone, Copy, PartialEq, Eq, Structural)]
pub enum PreviewStatus {
    Starting,
    Running,
    Stopped,
    Error,
}

/// Where a task's preview servers listen.
#[derive(Debug, Clone)]
pub struct PreviewInfo {
    pub task_id: String,
    pub backend_url: String,
    pub frontend_url: String,
    pub backend_port: u16,
    pub frontend_port: u16,
    pub status: PreviewStatus,
}

/// Local address of a port.
pub open spec fn local_url(port: u16) -> Seq<char> {
    "http://localhost:"@ + decimal_of(port as nat)
}

fn local_url_of(port: u16) -> (r: String)
    ensures
        r@ == local_url(port),
{
    let mut r = String::from_str("http://localhost:");
    let d = decimal_string(port as u64);
    r.append(d.as_str());
    r
}

impl PreviewInfo {
    /// Description of previews listening on the two ports.
    pub fn for_ports(task_id: &str, backend_port: u16, frontend_port: u16, status: PreviewStatus) -> (r: PreviewInfo)
        ensures
            r.task_id@ == task_id@,
            r.backend_url@ == local_url(backend_port),
            r.frontend_url@ == local_url(frontend_port),
            r.backend_port == backend_port,
            r.frontend_port == frontend_port,
            r.status == status,
    {
        PreviewInfo {
            task_id: String::from_str(task_id),
            backend_url: local_url_of(backend_port),
            frontend_url: local_url_of(frontend_port),
            backend_port,
            frontend_port,
            status,
        }
    }
}

/// `perms` with each of `bundled` added at the end unless already there,
/// in order.
pub open spec fn merged_permissions(perms: Seq<Seq<char>>, bundled: Seq<Seq<char>>) -> Seq<Seq<char>>
    decreases bundled.len(),
{
    if bundled.len() == 0 {
        perms
    } else {
        let m = merged_permissions(perms, bundled.drop_last());
        if m.contains(bundled.last()) {
            m
        } else {
            m.push(bundled.last())
        }
    }
}

/// Adds the bundled permission entries missing from the existing ones,
/// keeping the existing ones first; says whether any was added. Entries
/// are compared by their JSON text.
pub fn merge_permissions(existing: &Vec<String>, bundled: &Vec<String>) -> (r: (Vec<String>, bool))
    ensures
        r.0.deep_view() == merged_permissions(existing.deep_view(), bundled.deep_view()),
        r.1 == (r.0@.len() > existing@.len()),
{
    let ghost b = bundled.deep_view();
    let mut out: Vec<String> = Vec::new();
    let mut k: usize = 0;
    while k < existing.len()
        invariant
            k <= existing@.len(),
            out@.len() == k,
            forall|j: int| 0 <= j < k ==> #[trigger] out@[j]@ == existing@[j]@,
        decreases existing@.len() - k,
    {
        out.push(existing[k].clone());
        k = k + 1;
    }
    assert(out.deep_view() =~= existing.deep_view());
    assert(b.subrange(0, 0) =~= Seq::<Seq<char>>::empty());
    let mut i: usize = 0;
    while i < bundled.len()
        invariant
            b == bundled.deep_view(),
            i <= bundled@.len(),
            out.deep_view() == merged_permissions(existing.deep_view(), b.subrange(0, i as int)),
            out@.len() >= existing@.len(),
        decreases bundled@.len() - i,
    {
        proof {
            let s1 = b.subrange(0, i + 1);
            assert(s1.drop_last() =~= b.subrange(0, i as int));
            assert(s1.last() == bundled@[i as int]@);
        }
        let ghost before = out.deep_view();
        let mut found = false;
        let mut j: usize = 0;
        while j < out.len()
            invariant
                before == out.deep_view(),
                i < bundled@.len(),
                j <= out@.len(),
                found == exists|t: int| 0 <= t < j && #[trigger] out@[t]@ == bundled@[i as int]@,
            decreases out@.len() - j,
        {
            if out[j] == bundled[i] {
                found = true;
            }
            j = j + 1;
        }
        proof {
            if found {
                let t = choose|t: int| 0 <= t < out@.len() && #[trigger] out@[t]@ == bundled@[i as int]@;
                assert(before[t] == bundled@[i as int]@);
            }
            if before.contains(bundled@[i as int]@) {
                let t = choose|t: int| 0 <= t < before.len() && before[t] == bundled@[i as int]@;
                assert(out@[t]@ == bundled@[i as int]@);
            }
        }
        if !found {
            out.push(bundled[i].clone());
            assert(out.deep_view() =~= before.push(bundled@[i as int]@));
        }
        i = i + 1;
    }
    assert(b.subrange(0, bundled@.len() as int) == b);
    let added = out.len() > existing.len();
    (out, added)
}

/// `s` without leading and trailing whitespace.
pub open spec fn trimmed(s: Seq<char>) -> Seq<char>
    decreases s.len(),
{
    if s.len() > 0 && space_char(s[0]) {
        trimmed(s.drop_first())
    } else if s.len() > 0 && space_char(s.last()) {
        trimmed(s.drop_last())
    } else {
        s
    }
}

/// `s` without leading and trailing whitespace.
pub fn trim_text(s: &str) -> (r: String)
    ensures
        r@ == trimmed(s@),
{
    let n = s.unicode_len();
    let mut a: usize = 0;
    let mut b: usize = n;
    assert(s@.subrange(0, n as int) == s@);
    while a < b && is_space(s.get_char(a))
        invariant
            n == s@.len(),
            a <= b <= n,
            b == n,
            trimmed(s@) == trimmed(s@.subrange(a as int, b as int)),
        decreases b - a,
    {
        assert(s@.subrange(a as int, b as int).drop_first() =~= s@.subrange(a + 1, b as int));
        a = a + 1;
    }
    while a < b && is_space(s.get_char(b - 1))
        invariant
            n == s@.len(),
            a <= b <= n,
            a < b ==> !space_char(s@[a as int]),
            trimmed(s@) == trimmed(s@.subrange(a as int, b as int)),
        decreases b - a,
    {
        let ghost t = s@.subrange(a as int, b as int);
        assert(t.drop_last() =~= s@.subrange(a as int, b - 1));
        assert(t[0] == s@[a as int]);
        b = b - 1;
    }
    proof {
        let t = s@.subrange(a as int, b as int);
        if t.len() > 0 {
            assert(t[0] == s@[a as int]);
            assert(t.last() == s@[b - 1]);
        }
    }
    String::from_str(s.substring_char(a, b))
}

/// What the global configuration needs.
#[derive(Debug, Clone, Copy, PartialEq, Eq, Structural)]
pub enum GlobalConfigAction {
    /// Nothing is there yet: write everything.
    Create,
    /// Another version wrote it: refresh the bundled parts.
    Update,
    /// Written by this version.
    UpToDate,
}

/// Decides the global configuration step from whether its directory
/// exists and which version the version file names.
pub fn global_config_action(dir_exists: bool, recorded_version: &str, version: &str) -> (r: GlobalConfigAction)
    ensures
        !dir_exists ==> r == GlobalConfigAction::Create,
        dir_exists && trimmed(recorded_version@) != version@ ==> r == GlobalConfigAction::Update,
        dir_exists && trimmed(recorded_version@) == version@ ==> r == GlobalConfigAction::UpToDate,
{
    if !dir_exists {
        return GlobalConfigAction::Create;
    }
    let t = trim_text(recorded_version);
    if crate::status::str_eq(t.as_str(), version) {
        GlobalConfigAction::UpToDate
    } else {
        GlobalConfigAction::Update
    }
}

} // verus!
