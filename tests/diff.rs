use eval_kanban::diff::{diff_response, empty_diff, parse_diff, split_words, DiffChangeType};

#[test]
fn test_parse_diff_modified() {
    let diff = r#"diff --git a/src/main.rs b/src/main.rs
index 1234567..abcdefg 100644
--- a/src/main.rs
+++ b/src/main.rs
@@ -1,3 +1,4 @@
 fn main() {
+    println!("Hello");
     println!("World");
 }
"#;
    let files = parse_diff(diff);
    assert_eq!(files.len(), 1);
    assert_eq!(files[0].path, "src/main.rs");
    assert_eq!(files[0].additions, 1);
    assert_eq!(files[0].deletions, 0);
}

#[test]
fn test_parse_diff_new_file() {
    let diff = r#"diff --git a/new_file.txt b/new_file.txt
new file mode 100644
index 0000000..1234567
--- /dev/null
+++ b/new_file.txt
@@ -0,0 +1 @@
+Hello World
"#;
    let files = parse_diff(diff);
    assert_eq!(files.len(), 1);
    assert!(matches!(files[0].change_type, DiffChangeType::Added));
}

#[test]
fn two_file_diff_summary() {
    let diff = "diff --git a/a.txt b/a.txt\nindex 1..2 100644\n--- a/a.txt\n+++ b/a.txt\n@@ -1 +1,2 @@\n one\n+two\ndiff --git a/b.txt b/b.txt\nnew file mode 100644\nindex 0..3\n--- /dev/null\n+++ b/b.txt\n@@ -0,0 +1 @@\n+hello\n";
    let r = diff_response(diff);
    assert_eq!(r.files.len(), 2);
    assert_eq!(r.files[0].path, "a.txt");
    assert_eq!(r.files[0].change_type, DiffChangeType::Modified);
    assert_eq!(r.files[0].additions, 1);
    assert_eq!(r.files[0].deletions, 0);
    assert_eq!(r.files[1].path, "b.txt");
    assert_eq!(r.files[1].change_type, DiffChangeType::Added);
    assert_eq!(r.total_additions, 2);
    assert_eq!(r.total_deletions, 0);
    assert_eq!(r.files[0].content, "index 1..2 100644\n--- a/a.txt\n+++ b/a.txt\n@@ -1 +1,2 @@\n one\n+two\n");
}

#[test]
fn deletions_renames_and_empty_input() {
    let diff = "diff --git a/x b/y\nrename from x\nrename to y\n-old\n-old2\n+new\ndiff --git a/z b/z\ndeleted file mode 100644\n-gone\n";
    let r = diff_response(diff);
    assert_eq!(r.files.len(), 2);
    assert_eq!(r.files[0].path, "y");
    assert_eq!(r.files[0].change_type, DiffChangeType::Renamed);
    assert_eq!(r.files[0].deletions, 2);
    assert_eq!(r.files[0].additions, 1);
    assert_eq!(r.files[1].change_type, DiffChangeType::Deleted);
    assert_eq!(r.total_deletions, 3);
    assert_eq!(parse_diff("").len(), 0);
    assert_eq!(parse_diff("no header here\n+x\n").len(), 0);
    let e = empty_diff();
    assert_eq!(e.files.len(), 0);
    assert_eq!(e.total_additions, 0);
}

#[test]
fn only_one_b_prefix_is_trimmed() {
    let files = parse_diff("diff --git a/b/b/f b/b/b/f\n");
    assert_eq!(files[0].path, "b/b/f");
    let files = parse_diff("diff --git a/b/x b/b/x\n");
    assert_eq!(files[0].path, "b/x");
}

#[test]
fn words_split_at_any_whitespace() {
    assert_eq!(split_words("diff --git  a/x\tb/y \n"), vec!["diff", "--git", "a/x", "b/y"]);
    assert!(split_words("   ").is_empty());
    assert_eq!(split_words("one"), vec!["one"]);
}
