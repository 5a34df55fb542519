use app_resolver::host::Host;
use app_resolver::host::RegKind;
use app_resolver::host::RegRoot;
use app_resolver::registry::reg_search;
use app_resolver::resolve_windows_app_path;

fn cv(s: &str) -> Vec<char> {
    s.chars().collect()
}

fn sv(v: &Vec<char>) -> String {
    v.iter().collect()
}

const USER_KEY: &str = r"Software\Microsoft\Windows\CurrentVersion\App Paths\tool.exe";
const WOW_KEY: &str = r"Software\WOW6432Node\Microsoft\Windows\CurrentVersion\App Paths\tool.exe";

#[test]
fn no_entries_no_match() {
    let host = Host::new();
    let exes = vec![cv("tool.exe"), cv("other.exe")];
    assert!(reg_search(&host, &exes).is_none());
}

#[test]
fn per_user_layer_wins() {
    let mut host = Host::new();
    host.add_registry(RegRoot::LocalMachine, USER_KEY, RegKind::Text, r"C:\machine\tool.exe");
    host.add_registry(RegRoot::CurrentUser, USER_KEY, RegKind::Text, r"C:\user\tool.exe");
    host.add_registry(RegRoot::LocalMachine, WOW_KEY, RegKind::Text, r"C:\wow\tool.exe");
    host.add_existing(r"C:\machine\tool.exe");
    host.add_existing(r"C:\user\tool.exe");
    host.add_existing(r"C:\wow\tool.exe");
    let exes = vec![cv("tool.exe")];
    let r = reg_search(&host, &exes);
    assert_eq!(r.as_ref().map(sv), Some(r"C:\user\tool.exe".to_string()));
}

#[test]
fn machine_layer_before_compatibility_view() {
    let mut host = Host::new();
    host.add_registry(RegRoot::LocalMachine, WOW_KEY, RegKind::Text, r"C:\wow\tool.exe");
    host.add_registry(RegRoot::LocalMachine, USER_KEY, RegKind::Text, r"C:\machine\tool.exe");
    host.add_existing(r"C:\machine\tool.exe");
    host.add_existing(r"C:\wow\tool.exe");
    let exes = vec![cv("tool.exe")];
    let r = reg_search(&host, &exes);
    assert_eq!(r.as_ref().map(sv), Some(r"C:\machine\tool.exe".to_string()));
}

#[test]
fn non_text_value_kind_is_absent() {
    let mut host = Host::new();
    host.add_registry(RegRoot::CurrentUser, USER_KEY, RegKind::Other, r"C:\user\tool.exe");
    host.add_existing(r"C:\user\tool.exe");
    let exes = vec![cv("tool.exe")];
    assert!(reg_search(&host, &exes).is_none());
}

#[test]
fn expandable_value_is_expanded() {
    let mut host = Host::new();
    host.add_env("ProgramFiles", r"C:\Program Files");
    host.add_registry(
        RegRoot::CurrentUser,
        USER_KEY,
        RegKind::ExpandableText,
        r"%ProgramFiles%\Tool\tool.exe --launch",
    );
    host.add_existing(r"C:\Program Files\Tool\tool.exe");
    let exes = vec![cv("tool.exe")];
    let r = reg_search(&host, &exes);
    assert_eq!(r.as_ref().map(sv), Some(r"C:\Program Files\Tool\tool.exe".to_string()));
}

#[test]
fn quoted_value_token_is_unwrapped() {
    let mut host = Host::new();
    host.add_registry(
        RegRoot::CurrentUser,
        USER_KEY,
        RegKind::Text,
        "\"C:\\Some Dir\\tool.exe\" %1",
    );
    host.add_existing(r"C:\Some Dir\tool.exe");
    let exes = vec![cv("tool.exe")];
    let r = reg_search(&host, &exes);
    assert_eq!(r.as_ref().map(sv), Some(r"C:\Some Dir\tool.exe".to_string()));
}

#[test]
fn missing_registered_path_is_skipped() {
    let mut host = Host::new();
    host.add_registry(RegRoot::CurrentUser, USER_KEY, RegKind::Text, r"C:\gone\tool.exe");
    host.add_registry(RegRoot::LocalMachine, USER_KEY, RegKind::Text, r"C:\here\tool.exe");
    host.add_existing(r"C:\here\tool.exe");
    let exes = vec![cv("tool.exe")];
    let r = reg_search(&host, &exes);
    assert_eq!(r.as_ref().map(sv), Some(r"C:\here\tool.exe".to_string()));
}

#[test]
fn full_pipeline_reaches_store() {
    let mut host = Host::new();
    host.add_registry(
        RegRoot::LocalMachine,
        r"Software\Microsoft\Windows\CurrentVersion\App Paths\SomeTool.exe",
        RegKind::Text,
        r"C:\Installed\SomeTool\sometool.exe",
    );
    host.add_existing(r"C:\Installed\SomeTool\sometool.exe");
    let r = resolve_windows_app_path("SomeTool", &host);
    assert_eq!(r, Some(r"C:\Installed\SomeTool\sometool.exe".to_string()));
}

#[test]
fn pipeline_prefers_search_over_store() {
    let mut host = Host::new();
    host.add_search("tool", &vec![r"C:\path\tool.exe".to_string()]);
    host.add_registry(RegRoot::CurrentUser, USER_KEY, RegKind::Text, r"C:\reg\tool.exe");
    host.add_existing(r"C:\reg\tool.exe");
    let r = resolve_windows_app_path("tool", &host);
    assert_eq!(r, Some(r"C:\path\tool.exe".to_string()));
}
