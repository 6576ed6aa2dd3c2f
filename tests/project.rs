use eval_kanban::project::merge_permissions;
use eval_kanban::project::{global_config_action, trim_text, GlobalConfigAction};
use eval_kanban::project::{
    decimal_string, ensure_config, file_name, generate_project_claude_md, PreviewInfo,
    PreviewStatus, ServerInfo,
};

#[test]
fn test_generate_project_claude_md() {
    let content = generate_project_claude_md("/home/user/my-project", false, false);
    assert!(content.contains("# my-project"));
    assert!(content.contains("my-project:"));
}

#[test]
fn claude_md_sections() {
    let c = generate_project_claude_md("/w/My App/", true, false);
    assert!(c.starts_with("# My App\n\n## Comandos\n- `npm run dev`"));
    assert!(c.ends_with("Prefixo: `my-app:`\n"));
    let c = generate_project_claude_md("/", false, true);
    assert!(c.starts_with("# project\n"));
    assert!(c.contains("cargo build --release"));
}

#[test]
fn file_names() {
    assert_eq!(file_name("/a/b"), Some("b".to_string()));
    assert_eq!(file_name("/a/b//"), Some("b".to_string()));
    assert_eq!(file_name("/"), None);
    assert_eq!(file_name("/a/.."), None);
    assert_eq!(file_name("x"), Some("x".to_string()));
}

#[test]
fn setup_and_server_info() {
    let r = ensure_config((true, false), (false, true));
    assert!(r.global_created && !r.global_updated && !r.local_created && r.local_updated);
    let s = ServerInfo::for_path("/srv/kanban");
    assert_eq!(s.name, "kanban");
    assert_eq!(s.path, "/srv/kanban");
    assert_eq!(ServerInfo::for_path("/").name, "root");
}

#[test]
fn preview_urls() {
    let p = PreviewInfo::for_ports("t1", 3001, 5173, PreviewStatus::Running);
    assert_eq!(p.backend_url, "http://localhost:3001");
    assert_eq!(p.frontend_url, "http://localhost:5173");
    assert_eq!(p.status, PreviewStatus::Running);
    assert_eq!(decimal_string(0), "0");
    assert_eq!(decimal_string(18446744073709551615), "18446744073709551615");
}

#[test]
fn permissions_merge_adds_missing_once() {
    let existing = vec!["\"a\"".to_string(), "\"b\"".to_string()];
    let bundled = vec!["\"b\"".to_string(), "\"c\"".to_string(), "\"c\"".to_string()];
    let (merged, added) = merge_permissions(&existing, &bundled);
    assert_eq!(merged, vec!["\"a\"".to_string(), "\"b\"".to_string(), "\"c\"".to_string()]);
    assert!(added);
    let (same, added) = merge_permissions(&merged, &bundled);
    assert_eq!(same, merged);
    assert!(!added);
}

#[test]
fn global_config_steps() {
    assert_eq!(global_config_action(false, "", "1.0"), GlobalConfigAction::Create);
    assert_eq!(global_config_action(true, " 1.0\n", "1.0"), GlobalConfigAction::UpToDate);
    assert_eq!(global_config_action(true, "0.9", "1.0"), GlobalConfigAction::Update);
    assert_eq!(trim_text("\t x y \n"), "x y");
    assert_eq!(trim_text("   "), "");
}
