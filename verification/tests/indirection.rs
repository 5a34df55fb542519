use app_resolver::cmdfile::resolve_cmd;
use app_resolver::host::Host;
use app_resolver::resolve_windows_app_path;

fn cv(s: &str) -> Vec<char> {
    s.chars().collect()
}

fn sv(v: &Vec<char>) -> String {
    v.iter().collect()
}

fn hits(items: &[&str]) -> Vec<String> {
    items.iter().map(|s| s.to_string()).collect()
}

#[test]
fn dp0_relative_indirection() {
    let mut host = Host::new();
    host.add_file(r"C:\tools\app\run.cmd", "\"%~dp0\\..\\bin\\real.exe\" %*");
    host.add_existing(r"C:\tools\bin\real.exe");
    let r = resolve_cmd(&cv(r"C:\tools\app\run.cmd"), &host);
    assert_eq!(r.as_ref().map(sv), Some(r"C:\tools\bin\real.exe".to_string()));
}

#[test]
fn dp0_with_forward_slashes() {
    let mut host = Host::new();
    host.add_file(r"C:\n\app.cmd", "\"%~dp0/sub/./x.exe\"");
    host.add_existing(r"C:\n\sub\x.exe");
    let r = resolve_cmd(&cv(r"C:\n\app.cmd"), &host);
    assert_eq!(r.as_ref().map(sv), Some(r"C:\n\sub\x.exe".to_string()));
}

#[test]
fn env_expanded_indirection() {
    let mut host = Host::new();
    host.add_env("TOOLDIR", r"C:\opt\tool");
    host.add_file(r"C:\bin\tool.cmd", r"%TOOLDIR%\tool.exe %*");
    host.add_existing(r"C:\opt\tool\tool.exe");
    let r = resolve_cmd(&cv(r"C:\bin\tool.cmd"), &host);
    assert_eq!(r.as_ref().map(sv), Some(r"C:\opt\tool\tool.exe".to_string()));
}

#[test]
fn unreadable_file_no_match() {
    let host = Host::new();
    assert!(resolve_cmd(&cv(r"C:\bin\tool.cmd"), &host).is_none());
}

#[test]
fn missing_target_no_match() {
    let mut host = Host::new();
    host.add_file(r"C:\bin\tool.cmd", "\"%~dp0\\gone.exe\"");
    assert!(resolve_cmd(&cv(r"C:\bin\tool.cmd"), &host).is_none());
}

#[test]
fn first_existing_segment_wins() {
    let mut host = Host::new();
    host.add_file(
        r"C:\bin\tool.cmd",
        "\"%~dp0\\missing.exe\" or \"%~dp0\\second.exe\" %*",
    );
    host.add_existing(r"C:\bin\second.exe");
    let r = resolve_cmd(&cv(r"C:\bin\tool.cmd"), &host);
    assert_eq!(r.as_ref().map(sv), Some(r"C:\bin\second.exe".to_string()));
}

#[test]
fn cmd_hit_resolves_through_search() {
    let mut host = Host::new();
    host.add_search("yarn", &hits(&[r"C:\nodejs\yarn.cmd"]));
    host.add_file(r"C:\nodejs\yarn.cmd", "\"%~dp0\\node_modules\\yarn\\bin\\yarn.exe\" %*");
    host.add_existing(r"C:\nodejs\node_modules\yarn\bin\yarn.exe");
    let r = resolve_windows_app_path("yarn", &host);
    assert_eq!(r, Some(r"C:\nodejs\node_modules\yarn\bin\yarn.exe".to_string()));
}

#[test]
fn extensionless_hit_uses_script_sibling() {
    let mut host = Host::new();
    host.add_search("node-tool", &hits(&[r"C:\bin\node-tool"]));
    host.add_existing(r"C:\bin\node-tool.cmd");
    host.add_file(r"C:\bin\node-tool.cmd", "\"%~dp0\\lib\\node-tool.exe\"");
    host.add_existing(r"C:\bin\lib\node-tool.exe");
    let r = resolve_windows_app_path("node-tool", &host);
    assert_eq!(r, Some(r"C:\bin\lib\node-tool.exe".to_string()));
}

#[test]
fn sibling_heuristic_finds_near_executable() {
    let mut host = Host::new();
    host.add_search("mytool", &hits(&[r"C:\apps\MyTool\bin\launcher"]));
    host.add_dir(
        r"C:\apps\MyTool",
        &hits(&[r"C:\apps\MyTool\readme.txt", r"C:\apps\MyTool\MyTool64.exe"]),
    );
    let r = resolve_windows_app_path("mytool", &host);
    assert_eq!(r, Some(r"C:\apps\MyTool\MyTool64.exe".to_string()));
}

#[test]
fn sibling_heuristic_prefers_nearest_directory() {
    let mut host = Host::new();
    host.add_search("app", &hits(&[r"C:\root\sub\bin\app.link"]));
    host.add_dir(r"C:\root\sub\bin", &hits(&[r"C:\root\sub\bin\app32.exe"]));
    host.add_dir(r"C:\root\sub", &hits(&[r"C:\root\sub\app64.exe"]));
    let r = resolve_windows_app_path("app", &host);
    assert_eq!(r, Some(r"C:\root\sub\bin\app32.exe".to_string()));
}
