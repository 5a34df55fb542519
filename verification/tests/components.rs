use app_resolver::candidates::candidates;
use app_resolver::candidates::key_of;
use app_resolver::expand::expand_env;
use app_resolver::extract::extract_exe;
use app_resolver::host::Host;

fn cv(s: &str) -> Vec<char> {
    s.chars().collect()
}

fn sv(v: &Vec<char>) -> String {
    v.iter().collect()
}

#[test]
fn expand_defined_variable() {
    let mut host = Host::new();
    host.add_env("FOO", r"C:\x");
    let r = expand_env(&cv(r"%FOO%\bar"), &host);
    assert_eq!(sv(&r), r"C:\x\bar");
}

#[test]
fn expand_undefined_variable_unchanged() {
    let host = Host::new();
    let r = expand_env(&cv(r"%BAR%\x"), &host);
    assert_eq!(sv(&r), r"%BAR%\x");
}

#[test]
fn expand_unterminated_percent_unchanged() {
    let mut host = Host::new();
    host.add_env("BAR", r"C:\y");
    let r = expand_env(&cv("%BAR"), &host);
    assert_eq!(sv(&r), "%BAR");
}

#[test]
fn expand_empty_placeholder_collapses() {
    let host = Host::new();
    let r = expand_env(&cv("a%%b"), &host);
    assert_eq!(sv(&r), "a%b");
}

#[test]
fn expand_is_not_recursive() {
    let mut host = Host::new();
    host.add_env("A", "%B%");
    host.add_env("B", "never");
    let r = expand_env(&cv("%A%"), &host);
    assert_eq!(sv(&r), "%B%");
}

#[test]
fn expand_name_matching_is_case_sensitive() {
    let mut host = Host::new();
    host.add_env("Path", r"C:\p");
    let r = expand_env(&cv("%PATH%"), &host);
    assert_eq!(sv(&r), "%PATH%");
}

#[test]
fn sublime_text_candidates() {
    let list = candidates(&cv("Sublime Text"));
    let got: Vec<String> = list.iter().map(sv).collect();
    assert_eq!(
        got,
        vec![
            "Sublime Text".to_string(),
            "Sublime Text.exe".to_string(),
            "sublime_text".to_string(),
            "sublime_text.exe".to_string(),
            "sublimetext".to_string(),
            "sublimetext.exe".to_string(),
            "subl".to_string(),
            "subl.exe".to_string(),
        ]
    );
}

#[test]
fn blank_candidates_empty() {
    assert_eq!(candidates(&cv("   ")).len(), 0);
    assert_eq!(candidates(&cv("")).len(), 0);
    assert_eq!(candidates(&cv("\"\"")).len(), 0);
}

#[test]
fn candidates_deduplicate_case_insensitively() {
    let list = candidates(&cv("subl"));
    let got: Vec<String> = list.iter().map(sv).collect();
    assert_eq!(got, vec!["subl".to_string(), "subl.exe".to_string()]);
}

#[test]
fn exe_suffixed_name_not_doubled() {
    let list = candidates(&cv("Tool.EXE"));
    let got: Vec<String> = list.iter().map(sv).collect();
    assert_eq!(
        got,
        vec![
            "Tool.EXE".to_string(),
            "tool_exe".to_string(),
            "tool_exe.exe".to_string(),
            "toolexe".to_string(),
            "toolexe.exe".to_string(),
        ]
    );
}

#[test]
fn extract_quoted_token() {
    let r = extract_exe(&cv("\"C:\\Program Files\\foo.exe\" %*"));
    assert_eq!(r.as_ref().map(sv), Some(r"C:\Program Files\foo.exe".to_string()));
}

#[test]
fn extract_unquoted_token() {
    let r = extract_exe(&cv("foo.exe -x"));
    assert_eq!(r.as_ref().map(sv), Some("foo.exe".to_string()));
}

#[test]
fn extract_without_marker() {
    assert!(extract_exe(&cv("no exe here")).is_none());
    assert!(extract_exe(&cv("")).is_none());
}

#[test]
fn extract_is_case_insensitive_on_marker() {
    let r = extract_exe(&cv(r"C:\Apps\TOOL.EXE --help"));
    assert_eq!(r.as_ref().map(sv), Some(r"C:\Apps\TOOL.EXE".to_string()));
}

#[test]
fn key_is_lowercase_alphanumeric() {
    let k = key_of(&cv("Sublime Text 4"));
    assert_eq!(sv(&k), "sublimetext4");
}
