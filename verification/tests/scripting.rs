use nami::scripting::{hook_name, hook_script, ScriptAction, ScriptEvent};

#[test]
fn hook_names_follow_the_events() {
    assert_eq!(hook_name(&ScriptEvent::OnStart), "on_start");
    assert_eq!(hook_name(&ScriptEvent::OnQuit), "on_quit");
    assert_eq!(hook_name(&ScriptEvent::OnKey("j".to_string())), "on_key");
}

#[test]
fn hook_scripts_call_defined_hooks_only() {
    assert_eq!(hook_script(&ScriptEvent::OnStart), "if is_def_fn(\"on_start\", 0) { on_start(); }");
    assert_eq!(hook_script(&ScriptEvent::OnQuit), "if is_def_fn(\"on_quit\", 0) { on_quit(); }");
    assert_eq!(
        hook_script(&ScriptEvent::OnKey("j".to_string())),
        "if is_def_fn(\"on_key\", 1) { on_key(\"j\"); }"
    );
}

#[test]
fn script_actions_carry_their_arguments() {
    let a = ScriptAction::AddBookmark { url: "https://rust-lang.org".to_string(), title: "Rust".to_string() };
    assert!(matches!(&a, ScriptAction::AddBookmark { url, title } if url == "https://rust-lang.org" && title == "Rust"));
    let n = ScriptAction::Navigate("https://example.com".to_string());
    assert!(matches!(&n, ScriptAction::Navigate(u) if u == "https://example.com"));
}
