use app_resolver::host::{Host, RegRoot};
use app_resolver::snapshot::ancestor_dir_list;
use app_resolver::snapshot::candidate_list;
use app_resolver::snapshot::exe_name_list;
use app_resolver::snapshot::launcher_target_list;
use app_resolver::snapshot::normalized_name;
use app_resolver::snapshot::script_probe_list;
use app_resolver::snapshot::store_probe_keys;
use app_resolver::snapshot::store_probe_target;

#[test]
fn name_is_trimmed_and_unquoted() {
    assert_eq!(normalized_name("  \"Sublime Text\" "), "Sublime Text");
    assert_eq!(normalized_name("   "), "");
}

#[test]
fn candidate_list_matches_generator() {
    let got = candidate_list("code");
    assert_eq!(got, vec!["code".to_string(), "code.exe".to_string()]);
}

#[test]
fn exe_names_use_trailing_component() {
    let cands = vec![r"C:\tools\my app".to_string(), "my app.exe".to_string()];
    let got = exe_name_list(&cands);
    assert_eq!(got, vec!["my app.exe".to_string()]);
}

#[test]
fn script_probes_for_each_hit_shape() {
    assert_eq!(script_probe_list(r"C:\bin\tool.cmd"), vec![r"C:\bin\tool.cmd".to_string()]);
    assert_eq!(
        script_probe_list(r"C:\bin\tool"),
        vec![r"C:\bin\tool.cmd".to_string(), r"C:\bin\tool.bat".to_string()]
    );
    assert_eq!(script_probe_list(r"C:\bin\tool.exe"), Vec::<String>::new());
}

#[test]
fn ancestor_dirs_nearest_first() {
    assert_eq!(
        ancestor_dir_list(r"C:\a\b\c\tool.lnk"),
        vec![r"C:\a\b\c".to_string(), r"C:\a\b".to_string(), r"C:\a".to_string()]
    );
}

#[test]
fn launcher_targets_in_segment_order() {
    let mut host = Host::new();
    host.add_env("D", r"C:\d");
    let targets = launcher_target_list(
        r"C:\s\run.cmd",
        "\"%~dp0\\..\\bin\\a.exe\" \"%D%\\b.exe\"",
        &host,
    );
    assert_eq!(targets, vec![r"C:\bin\a.exe".to_string(), r"C:\d\b.exe".to_string()]);
}

#[test]
fn store_keys_in_layer_order() {
    let keys = store_probe_keys("tool.exe");
    assert_eq!(keys.len(), 3);
    assert_eq!(keys[0].0, RegRoot::CurrentUser);
    assert_eq!(keys[0].1, r"Software\Microsoft\Windows\CurrentVersion\App Paths\tool.exe");
    assert_eq!(keys[1].0, RegRoot::LocalMachine);
    assert_eq!(keys[1].1, r"Software\Microsoft\Windows\CurrentVersion\App Paths\tool.exe");
    assert_eq!(keys[2].0, RegRoot::LocalMachine);
    assert_eq!(
        keys[2].1,
        r"Software\WOW6432Node\Microsoft\Windows\CurrentVersion\App Paths\tool.exe"
    );
}

#[test]
fn store_target_expands_and_unquotes() {
    let mut host = Host::new();
    host.add_env("P", r"C:\p");
    let t = store_probe_target("  \"%P%\\tool.exe\" --flag  ", &host);
    assert_eq!(t, Some(r"C:\p\tool.exe".to_string()));
    assert_eq!(store_probe_target("no token", &host), None);
}
