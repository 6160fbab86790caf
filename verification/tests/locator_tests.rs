use python_on_path::PythonEnv;
use python_on_path::PythonEnvironment;
use python_on_path::PythonEnvironmentCategory;
use python_on_path::PythonOnPath;
use python_on_path::StaticEnvironment;
use python_on_path::get_env_path;

fn env_with(
    windows: bool,
    path_var: Option<&str>,
    home: Option<&str>,
    files: Vec<(&str, Option<&str>)>,
) -> StaticEnvironment {
    StaticEnvironment {
        windows,
        path_var: path_var.map(|s| s.to_string()),
        home: home.map(|s| s.to_string()),
        files: files
            .into_iter()
            .map(|(p, v)| (p.to_string(), v.map(|s| s.to_string())))
            .collect(),
    }
}

#[test]
fn find_absent_when_path_unset() {
    let env = env_with(false, None, Some("/home/u"), vec![("/usr/bin/python", Some("3.12.0"))]);
    let mut locator = PythonOnPath::with(&env);
    assert!(locator.find().is_none());
}

#[test]
fn find_absent_when_home_unset() {
    let env = env_with(
        false,
        Some("/usr/bin"),
        None,
        vec![("/usr/bin/python", Some("3.12.0"))],
    );
    let mut locator = PythonOnPath::with(&env);
    assert!(locator.find().is_none());
}

#[test]
fn find_absent_when_no_candidates() {
    let env = env_with(false, Some("/a:/b:/c"), Some("/home/u"), vec![]);
    let mut locator = PythonOnPath::with(&env);
    assert!(locator.find().is_none());
}

#[test]
fn find_skips_differently_named_binaries() {
    let env = env_with(
        false,
        Some("/usr/bin"),
        Some("/home/u"),
        vec![("/usr/bin/python3", Some("3.12.0")), ("/usr/bin/python3.11", Some("3.11.4"))],
    );
    let mut locator = PythonOnPath::with(&env);
    assert!(locator.find().is_none());
}

#[test]
fn resolve_accepts_matching_name() {
    let env = env_with(false, None, None, vec![]);
    let locator = PythonOnPath::with(&env);
    let candidate = PythonEnv::new("/usr/bin/python".to_string(), None, None);
    assert!(locator.resolve(&candidate).is_some());
}

#[test]
fn resolve_accepts_case_insensitive_name() {
    let env = env_with(false, None, None, vec![]);
    let locator = PythonOnPath::with(&env);
    let candidate = PythonEnv::new("/usr/bin/PyThOn".to_string(), None, None);
    assert!(locator.resolve(&candidate).is_some());

    let wenv = env_with(true, None, None, vec![]);
    let wlocator = PythonOnPath::with(&wenv);
    let wcandidate = PythonEnv::new("C:\\Python39\\PYTHON.EXE".to_string(), None, None);
    assert!(wlocator.resolve(&wcandidate).is_some());
}

#[test]
fn resolve_rejects_other_names() {
    let env = env_with(false, None, None, vec![]);
    let locator = PythonOnPath::with(&env);
    assert!(locator.resolve(&PythonEnv::new("/usr/bin/python3".to_string(), None, None)).is_none());
    assert!(
        locator.resolve(&PythonEnv::new("/usr/bin/python3.11".to_string(), None, None)).is_none()
    );
    assert!(locator.resolve(&PythonEnv::new("/usr/bin/python.exe".to_string(), None, None)).is_none());
}

#[test]
fn resolve_fills_descriptor_fields() {
    let env = env_with(false, None, None, vec![]);
    let locator = PythonOnPath::with(&env);
    let candidate = PythonEnv::new(
        "/usr/bin/python".to_string(),
        Some("/usr/bin".to_string()),
        Some("3.10.1".to_string()),
    );
    let descriptor = locator.resolve(&candidate).unwrap();
    assert_eq!(
        descriptor,
        PythonEnvironment {
            display_name: None,
            python_executable_path: Some("/usr/bin/python".to_string()),
            version: Some("3.10.1".to_string()),
            category: PythonEnvironmentCategory::System,
            env_path: Some("/usr/bin".to_string()),
            python_run_command: Some(vec!["/usr/bin/python".to_string()]),
        }
    );
}

#[test]
fn env_root_of_scripts_candidate() {
    assert_eq!(
        get_env_path("/opt/envA/Scripts/python.exe", false),
        Some("/opt/envA".to_string())
    );
    assert_eq!(
        get_env_path("C:\\work\\envA\\Scripts\\python.exe", true),
        Some("C:\\work\\envA".to_string())
    );
}

#[test]
fn env_root_of_plain_candidate() {
    assert_eq!(get_env_path("/usr/bin/python", false), Some("/usr/bin".to_string()));
    assert_eq!(get_env_path("python", false), None);
}

#[test]
fn env_root_of_candidate_under_root() {
    assert_eq!(get_env_path("/python", false), Some("/".to_string()));
}

#[test]
fn excluded_windows_apps_entry_ignored() {
    let apps = "C:\\Users\\u\\AppData\\Local\\Microsoft\\WindowsApps";
    let env = env_with(
        true,
        Some(&format!("{};C:\\Python39", apps)),
        Some("C:\\Users\\u"),
        vec![
            (&format!("{}\\python.exe", apps), Some("3.12.0")),
            ("C:\\Python39\\python.exe", Some("3.9.7")),
        ],
    );
    let mut locator = PythonOnPath::with(&env);
    let result = locator.find().unwrap();
    assert_eq!(result.environments.len(), 1);
    assert_eq!(
        result.environments[0].python_executable_path,
        Some("C:\\Python39\\python.exe".to_string())
    );
}

#[test]
fn order_preserved() {
    let env = env_with(
        false,
        Some("/a:/b"),
        Some("/home/u"),
        vec![("/a/python", Some("3.8.0")), ("/b/python", Some("3.9.0"))],
    );
    let mut locator = PythonOnPath::with(&env);
    let result = locator.find().unwrap();
    assert_eq!(result.environments.len(), 2);
    assert_eq!(
        result.environments[0].python_executable_path,
        Some("/a/python".to_string())
    );
    assert_eq!(
        result.environments[1].python_executable_path,
        Some("/b/python".to_string())
    );
}

#[test]
fn find_idempotent() {
    let env = env_with(
        false,
        Some("/a:/b"),
        Some("/home/u"),
        vec![("/a/python", Some("3.8.0")), ("/b/python", None)],
    );
    let mut locator = PythonOnPath::with(&env);
    let first = locator.find();
    let second = locator.find();
    assert_eq!(first, second);
}

#[test]
fn scenario_single_match() {
    let env = env_with(
        false,
        Some("/usr/local/bin:/usr/bin"),
        Some("/home/u"),
        vec![("/usr/local/bin/python", Some("3.11.2"))],
    );
    let mut locator = PythonOnPath::with(&env);
    let result = locator.find().unwrap();
    assert!(result.managers.is_empty());
    assert_eq!(result.environments.len(), 1);
    assert_eq!(
        result.environments[0],
        PythonEnvironment {
            display_name: None,
            python_executable_path: Some("/usr/local/bin/python".to_string()),
            version: Some("3.11.2".to_string()),
            category: PythonEnvironmentCategory::System,
            env_path: Some("/usr/local/bin".to_string()),
            python_run_command: Some(vec!["/usr/local/bin/python".to_string()]),
        }
    );
}

#[test]
fn version_passthrough_absent() {
    let env = env_with(false, Some("/usr/bin"), Some("/home/u"), vec![("/usr/bin/python", None)]);
    let mut locator = PythonOnPath::with(&env);
    let result = locator.find().unwrap();
    assert_eq!(result.environments.len(), 1);
    assert_eq!(result.environments[0].version, None);
}
