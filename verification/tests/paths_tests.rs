use python_on_path::bin_name;
use python_on_path::paths::file_name;
use python_on_path::paths::parent;
use python_on_path::paths::path_join;
use python_on_path::paths::path_starts_with;
use python_on_path::split_paths;
use python_on_path::windows_apps_dir;

#[test]
fn bin_name_per_platform() {
    assert_eq!(bin_name(true), "python.exe");
    assert_eq!(bin_name(false), "python");
}

#[test]
fn split_unix_keeps_empty_entries() {
    assert_eq!(split_paths("/a:/b", false), vec!["/a".to_string(), "/b".to_string()]);
    assert_eq!(
        split_paths("/a::/b", false),
        vec!["/a".to_string(), "".to_string(), "/b".to_string()]
    );
    assert_eq!(split_paths("", false), vec!["".to_string()]);
}

#[test]
fn split_windows_quotes_and_empties() {
    assert_eq!(
        split_paths("\"C:\\a;x\";C:\\b;;", true),
        vec!["C:\\a;x".to_string(), "C:\\b".to_string()]
    );
    assert_eq!(split_paths("C:\\a;C:\\b", true), vec!["C:\\a".to_string(), "C:\\b".to_string()]);
    assert_eq!(split_paths("", true), Vec::<String>::new());
}

#[test]
fn join_inserts_separator_when_needed() {
    assert_eq!(path_join("/usr/bin", "python", false), "/usr/bin/python");
    assert_eq!(path_join("/usr/bin/", "python", false), "/usr/bin/python");
    assert_eq!(path_join("", "python", false), "python");
    assert_eq!(path_join("C:\\Python39", "python.exe", true), "C:\\Python39\\python.exe");
}

#[test]
fn starts_with_respects_component_boundaries() {
    assert!(path_starts_with("/a/b/c", "/a/b", false));
    assert!(path_starts_with("/a/b", "/a/b", false));
    assert!(!path_starts_with("/a/bc", "/a/b", false));
    assert!(!path_starts_with("/a", "/a/b", false));
    assert!(path_starts_with("C:\\u\\apps\\python.exe", "C:\\u\\apps", true));
}

#[test]
fn file_name_and_parent() {
    assert_eq!(file_name("/usr/bin/python", false), Some("python".to_string()));
    assert_eq!(file_name("python", false), Some("python".to_string()));
    assert_eq!(file_name("/usr/bin/", false), None);
    assert_eq!(parent("/usr/bin/python", false), Some("/usr/bin".to_string()));
    assert_eq!(parent("/python", false), Some("/".to_string()));
    assert_eq!(parent("python", false), None);
    assert_eq!(parent("C:\\envA\\Scripts", true), Some("C:\\envA".to_string()));
}

#[test]
fn apps_dir_is_under_home() {
    assert_eq!(
        windows_apps_dir("C:\\Users\\u", true),
        "C:\\Users\\u\\AppData\\Local\\Microsoft\\WindowsApps"
    );
    assert_eq!(
        windows_apps_dir("/home/u", false),
        "/home/u/AppData/Local/Microsoft/WindowsApps"
    );
}
