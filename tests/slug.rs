use eval_kanban::slug::{generate_branch_name, slug_of_lowercase, slugify, workspace_slug};

#[test]
fn test_slugify() {
    assert_eq!(slugify("Hello World"), "hello-world");
    assert_eq!(slugify("Add login button"), "add-login-button");
    assert_eq!(slugify("Fix  bug!!!"), "fix-bug");
    assert_eq!(slugify("CamelCase"), "camelcase");
    assert_eq!(slugify("  spaces  "), "spaces");
}

#[test]
fn test_generate_branch_name() {
    assert_eq!(generate_branch_name("Add login", "abcdef12-3456"), "ek/add-login-abcdef12");
    assert_eq!(generate_branch_name("Fix bug #123", "0123456789"), "ek/fix-bug-123-01234567");
}

#[test]
fn test_slugify_max_length() {
    let long_title = "a".repeat(100);
    let slug = slugify(&long_title);
    assert!(slug.len() <= 50);
}

#[test]
fn slugify_examples_from_the_description() {
    assert_eq!(slugify("Hello World!!!"), "hello-world");
    assert_eq!(slugify("  spaces  "), "spaces");
    assert_eq!(slugify(&"x".repeat(100)).chars().count(), 50);
}

#[test]
fn slugify_edge_cases() {
    assert_eq!(slugify(""), "");
    assert_eq!(slugify("!!!"), "");
    assert_eq!(slugify("a_b-c d"), "a-b-c-d");
    assert_eq!(slugify("--x--"), "x");
    assert_eq!(slugify("ÀB"), "àb");
    assert_eq!(slugify("foo.bar"), "foo-bar");
    assert_eq!(slugify("v1.2 (beta)"), "v1-2-beta");
}

#[test]
fn slug_of_lowercase_does_not_lowercase() {
    assert_eq!(slug_of_lowercase("ab cd"), "ab-cd");
    assert_eq!(slug_of_lowercase("AB"), "AB");
}

#[test]
fn branch_names_are_deterministic_and_differ_by_id() {
    let a = generate_branch_name("Same title", "11111111-aaaa");
    let b = generate_branch_name("Same title", "11111111-aaaa");
    let c = generate_branch_name("Same title", "22222222-aaaa");
    assert_eq!(a, b);
    assert_ne!(a, c);
}

#[test]
fn short_ids_are_kept_whole() {
    assert_eq!(generate_branch_name("T", "abc"), "ek/t-abc");
    assert_eq!(workspace_slug("My Task", "123456789"), "my-task-12345678");
}
