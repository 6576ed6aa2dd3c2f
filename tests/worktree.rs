use eval_kanban::worktree::{data_dir_for, get_data_dir, get_worktrees_dir, hash_dir_name, join_path, WorktreeManager};

#[test]
fn paths_join_with_one_separator() {
    assert_eq!(join_path("/a", "b"), "/a/b");
    assert_eq!(join_path("/a/", "b"), "/a/b");
    assert_eq!(join_path("", "b"), "b");
    assert_eq!(data_dir_for(Some("/home/u")), "/home/u/.eval-kanban");
    assert_eq!(data_dir_for(None), ".eval-kanban");
}

#[test]
fn hash_directory_names() {
    assert_eq!(hash_dir_name(0), "0");
    assert_eq!(hash_dir_name(0xdeadbeefcafe), "deadbeef");
    assert_eq!(hash_dir_name(0xabc), "abc");
}

#[test]
fn workspace_locations() {
    let m = WorktreeManager::new("/repo".into(), "/base".into());
    let again = WorktreeManager::new("/repo".into(), "/base".into());
    assert_eq!(m.project_hash, again.project_hash);
    assert!(m.project_hash.len() <= 8 && !m.project_hash.is_empty());
    let (branch, path) = m.workspace_for("Add login", "1234567890");
    assert_eq!(branch, "ek/add-login-12345678");
    assert_eq!(path, format!("/base/{}/add-login-12345678", m.project_hash));
    assert_eq!(m.get_worktree_path("x"), format!("/base/{}/x", m.project_hash));
}

#[test]
fn test_data_dir() {
    let dir = get_data_dir();
    assert!(dir.contains(".eval-kanban"));
    assert!(get_worktrees_dir().ends_with(".eval-kanban/worktrees"));
}
