use app_resolver::check_windows_app;
use app_resolver::host::Host;
use app_resolver::resolve_windows_app_path;

fn hits(items: &[&str]) -> Vec<String> {
    items.iter().map(|s| s.to_string()).collect()
}

#[test]
fn empty_name_no_match() {
    let host = Host::new();
    assert_eq!(resolve_windows_app_path("", &host), None);
    assert!(!check_windows_app("", &host));
}

#[test]
fn whitespace_name_no_match() {
    let mut host = Host::new();
    host.add_existing(r"C:\Windows\notepad.exe");
    assert_eq!(resolve_windows_app_path("   \t ", &host), None);
    assert!(!check_windows_app("   \t ", &host));
}

#[test]
fn absolute_existing_returned_verbatim() {
    let mut host = Host::new();
    host.add_existing(r"C:\Tools\app.exe");
    let r = resolve_windows_app_path("  \"C:\\Tools\\app.exe\"  ", &host);
    assert_eq!(r, Some(r"C:\Tools\app.exe".to_string()));
}

#[test]
fn absolute_existing_ignores_search_and_store() {
    let mut host = Host::new();
    host.add_existing(r"C:\Tools\app.exe");
    host.add_search(r"C:\Tools\app.exe", &hits(&[r"C:\Elsewhere\other.exe"]));
    host.add_registry(
        app_resolver::host::RegRoot::CurrentUser,
        r"Software\Microsoft\Windows\CurrentVersion\App Paths\app.exe",
        app_resolver::host::RegKind::Text,
        r"C:\Elsewhere\other.exe",
    );
    let r = resolve_windows_app_path(r"C:\Tools\app.exe", &host);
    assert_eq!(r, Some(r"C:\Tools\app.exe".to_string()));
}

#[test]
fn absolute_missing_continues_with_candidates() {
    let mut host = Host::new();
    // The absolute path does not exist, so the name-based phases run and the
    // PATH-style search finds a different install of the same binary.
    host.add_search(r"C:\gone\app.exe", &hits(&[r"C:\other\app.exe"]));
    let r = resolve_windows_app_path(r"C:\gone\app.exe", &host);
    assert_eq!(r, Some(r"C:\other\app.exe".to_string()));
}

#[test]
fn unknown_name_no_match() {
    let host = Host::new();
    assert_eq!(resolve_windows_app_path("definitely-not-installed", &host), None);
}

#[test]
fn first_exe_hit_wins() {
    let mut host = Host::new();
    host.add_search("code", &hits(&[r"C:\bin\code", r"C:\bin\code.exe"]));
    let r = resolve_windows_app_path("code", &host);
    assert_eq!(r, Some(r"C:\bin\code.exe".to_string()));
}

#[test]
fn raw_hit_fallback() {
    let mut host = Host::new();
    host.add_search("tool", &hits(&[r"C:\bin\tool.sh"]));
    let r = resolve_windows_app_path("tool", &host);
    assert_eq!(r, Some(r"C:\bin\tool.sh".to_string()));
}

#[test]
fn candidate_order_decides() {
    let mut host = Host::new();
    // Both the bare name and the `.exe` variant have hits; the bare name is
    // generated first, so its hit wins.
    host.add_search("app", &hits(&[r"C:\one\app.exe"]));
    host.add_search("app.exe", &hits(&[r"C:\two\app.exe"]));
    let r = resolve_windows_app_path("app", &host);
    assert_eq!(r, Some(r"C:\one\app.exe".to_string()));
}

#[test]
fn resolution_idempotent_under_fixed_state() {
    let mut host = Host::new();
    host.add_search("git", &hits(&[r"C:\Program Files\Git\cmd\git.exe"]));
    let r1 = resolve_windows_app_path("git", &host);
    let r2 = resolve_windows_app_path("git", &host);
    assert_eq!(r1, r2);
    assert_eq!(r1, Some(r"C:\Program Files\Git\cmd\git.exe".to_string()));
}

#[test]
fn check_follows_resolution() {
    let mut host = Host::new();
    host.add_search("git", &hits(&[r"C:\Git\git.exe"]));
    assert!(check_windows_app("git", &host));
    assert!(!check_windows_app("hg", &host));
}
