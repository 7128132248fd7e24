use openchamber_core::files::{
    check_within_workspace, clamp_search_limit, is_visible_entry, matches_query, normalize_path,
    normalize_query, relative_path, resolve_creatable_path, resolve_sandboxed_path,
    should_skip_directory, FsCommandError, DEFAULT_FILE_SEARCH_LIMIT,
    FILE_SEARCH_MAX_CONCURRENCY, MAX_FILE_SEARCH_LIMIT,
};
use openchamber_core::commands::{
    directory_selection_result, notification_texts, request_directory_access,
    start_accessing_directory, stop_accessing_directory, DirectoryPermissionRequest,
    NotificationPayload,
};
use openchamber_core::terminal::{
    apply_terminal_environment, lowercase_name_accepts_login_flag, resolve_shell,
    shell_accepts_login_flag, shell_name_of, DEFAULT_COLORTERM, DEFAULT_LOCALE, DEFAULT_SHELL,
    DEFAULT_TERM, TERM_PROGRAM_NAME,
};

#[test]
fn list_messages() {
    assert_eq!(FsCommandError::NotFound.to_list_message(), "Directory not found");
    assert_eq!(FsCommandError::AccessDenied.to_list_message(), "Access to directory denied");
    assert_eq!(FsCommandError::OutsideWorkspace.to_list_message(), "Access to directory denied");
    assert_eq!(FsCommandError::NotDirectory.to_list_message(), "Specified path is not a directory");
    assert_eq!(FsCommandError::Other("x".to_string()).to_list_message(), "Failed to list directory");
}

#[test]
fn search_messages() {
    assert_eq!(FsCommandError::NotFound.to_search_message(), "Directory not found");
    assert_eq!(FsCommandError::AccessDenied.to_search_message(), "Access to directory denied");
    assert_eq!(FsCommandError::OutsideWorkspace.to_search_message(), "Access to directory denied");
    assert_eq!(FsCommandError::NotDirectory.to_search_message(), "Specified path is not a directory");
    assert_eq!(FsCommandError::Other("x".to_string()).to_search_message(), "Failed to search files");
}

#[test]
fn create_messages() {
    assert_eq!(FsCommandError::NotFound.to_create_message(), "Parent directory not found");
    assert_eq!(FsCommandError::AccessDenied.to_create_message(), "Access to directory denied");
    assert_eq!(FsCommandError::OutsideWorkspace.to_create_message(), "Access to directory denied");
    assert_eq!(FsCommandError::NotDirectory.to_create_message(), "Parent path must be a directory");
    assert_eq!(FsCommandError::Other("x".to_string()).to_create_message(), "Failed to create directory");
}

#[test]
fn failures_become_errors() {
    assert!(matches!(FsCommandError::from_failure(true, false, "m".to_string()), FsCommandError::NotFound));
    assert!(matches!(FsCommandError::from_failure(true, true, "m".to_string()), FsCommandError::NotFound));
    assert!(matches!(FsCommandError::from_failure(false, true, "m".to_string()), FsCommandError::AccessDenied));
    match FsCommandError::from_failure(false, false, "broken pipe".to_string()) {
        FsCommandError::Other(message) => assert_eq!(message, "broken pipe"),
        _ => panic!("expected another error"),
    }
}

#[test]
fn search_limit_is_clamped() {
    assert_eq!(clamp_search_limit(None), 60);
    assert_eq!(clamp_search_limit(Some(0)), 1);
    assert_eq!(clamp_search_limit(Some(1)), 1);
    assert_eq!(clamp_search_limit(Some(400)), 400);
    assert_eq!(clamp_search_limit(Some(401)), 400);
    assert_eq!(clamp_search_limit(Some(usize::MAX)), 400);
    assert_eq!(DEFAULT_FILE_SEARCH_LIMIT, 60);
    assert_eq!(MAX_FILE_SEARCH_LIMIT, 400);
    assert_eq!(FILE_SEARCH_MAX_CONCURRENCY, 5);
}

#[test]
fn hidden_and_excluded_directories_are_skipped() {
    for name in ["node_modules", ".git", "dist", "build", ".next", ".turbo", ".cache", "coverage", "tmp", "logs"] {
        assert!(should_skip_directory(name), "{name}");
    }
    assert!(should_skip_directory("Node_Modules"));
    assert!(should_skip_directory("DIST"));
    assert!(should_skip_directory(".anything"));
    assert!(!should_skip_directory("src"));
    assert!(!should_skip_directory("distribution"));
    assert!(!should_skip_directory(""));
}

#[test]
fn paths_are_written_with_slashes() {
    assert_eq!(normalize_path("C:\\a\\b"), "C:/a/b");
    assert_eq!(normalize_path("/a/b"), "/a/b");
    assert_eq!(normalize_path(""), "");
}

#[test]
fn relative_paths() {
    assert_eq!(relative_path("/root", "/root/a/b.txt"), "a/b.txt");
    assert_eq!(relative_path("/root/", "/root/a"), "a");
    assert_eq!(relative_path("/root", "/root"), "");
    assert_eq!(relative_path("/root", "/rooted/a"), "/rooted/a");
    assert_eq!(relative_path("/x", "/root/a\\b"), "/root/a/b");
    assert_eq!(relative_path("/root", "/root//a"), "a");
}

#[test]
fn login_flag_by_shell_name() {
    assert!(shell_accepts_login_flag("/bin/zsh"));
    assert!(shell_accepts_login_flag("/usr/local/bin/BASH"));
    assert!(shell_accepts_login_flag("fish"));
    assert!(shell_accepts_login_flag("/bin/sh"));
    assert!(shell_accepts_login_flag("/bin/ksh/"));
    assert!(!shell_accepts_login_flag("/usr/bin/python"));
    assert!(!shell_accepts_login_flag("/fish/nu"));
    assert!(!shell_accepts_login_flag(""));
    assert!(lowercase_name_accepts_login_flag("dash"));
    assert!(!lowercase_name_accepts_login_flag("ZSH"));
    assert_eq!(shell_name_of("/bin/zsh"), "zsh");
    assert_eq!(shell_name_of("zsh"), "zsh");
    assert_eq!(shell_name_of("/"), "/");
    assert_eq!(shell_name_of("/bin/.."), "/bin/..");
    assert!(shell_accepts_login_flag(DEFAULT_SHELL));
}

#[test]
fn notification_texts_have_defaults() {
    assert_eq!(notification_texts(&None), ("OpenChamber".to_string(), "Task completed".to_string()));
    let payload = NotificationPayload { title: Some("T".to_string()), body: None };
    assert_eq!(notification_texts(&Some(payload)), ("T".to_string(), "Task completed".to_string()));
    let payload = NotificationPayload { title: None, body: Some("B".to_string()) };
    assert_eq!(notification_texts(&Some(payload)), ("OpenChamber".to_string(), "B".to_string()));
}

#[test]
fn a_selected_directory_must_exist_and_be_one() {
    let r = directory_selection_result("/w".to_string(), false, false);
    assert!(!r.success);
    assert_eq!(r.path, None);
    assert_eq!(r.error.as_deref(), Some("Directory does not exist"));
    let r = directory_selection_result("/w".to_string(), true, false);
    assert!(!r.success);
    assert_eq!(r.error.as_deref(), Some("Path is not a directory"));
    let r = directory_selection_result("/w".to_string(), true, true);
    assert!(r.success);
    assert_eq!(r.path.as_deref(), Some("/w"));
    assert_eq!(r.error, None);
}

#[test]
fn sandboxed_paths_start_from_the_workspace() {
    assert_eq!(resolve_sandboxed_path(Some(" src "), Some("/ws"), "/home/me"), "/ws/src");
    assert_eq!(resolve_sandboxed_path(Some("/abs"), Some("/ws"), "/home/me"), "/abs");
    assert_eq!(resolve_sandboxed_path(Some("  "), Some("/ws"), "/home/me"), "/ws");
    assert_eq!(resolve_sandboxed_path(None, Some("/ws"), "/home/me"), "/ws");
    assert_eq!(resolve_sandboxed_path(None, None, "/home/me"), "/home/me");
    assert_eq!(resolve_sandboxed_path(Some("docs"), None, "/home/me"), "/home/me/docs");
}

#[test]
fn creatable_paths_start_from_the_workspace() {
    assert_eq!(resolve_creatable_path("new", Some("/ws"), "/home/me").ok(), Some("/ws/new".to_string()));
    assert_eq!(resolve_creatable_path("/abs/new", Some("/ws"), "/h").ok(), Some("/abs/new".to_string()));
    assert_eq!(resolve_creatable_path("new", None, "/home/me").ok(), Some("/home/me/new".to_string()));
    match resolve_creatable_path("", Some("/ws"), "/home/me") {
        Err(FsCommandError::Other(message)) => assert_eq!(message, "Path is required"),
        _ => panic!("an empty path is refused"),
    }
}

#[test]
fn paths_outside_the_workspace_are_refused() {
    assert!(check_within_workspace("/ws/a", Some("/ws")).is_ok());
    assert!(check_within_workspace("/ws", Some("/ws")).is_ok());
    assert!(check_within_workspace("/anything", None).is_ok());
    assert!(matches!(check_within_workspace("/wsx/a", Some("/ws")), Err(FsCommandError::OutsideWorkspace)));
    assert!(matches!(check_within_workspace("/etc", Some("/ws")), Err(FsCommandError::OutsideWorkspace)));
}

#[test]
fn search_queries_match_names_and_paths_in_any_case() {
    assert_eq!(normalize_query(Some("  ReadMe ")), "readme");
    assert_eq!(normalize_query(None), "");
    assert!(matches_query("README.md", "docs/README.md", "readme"));
    assert!(matches_query("a.txt", "Docs/a.txt", "docs/"));
    assert!(!matches_query("a.txt", "docs/a.txt", "zzz"));
    assert!(matches_query("a.txt", "docs/a.txt", ""));
    assert!(is_visible_entry("src"));
    assert!(!is_visible_entry(".git"));
    assert!(!is_visible_entry(""));
}

#[test]
fn directory_access_needs_a_readable_directory() {
    let request = || DirectoryPermissionRequest { path: "/w".to_string() };
    let r = request_directory_access(request(), false, false, None);
    assert!(!r.success);
    assert_eq!(r.error.as_deref(), Some("Directory does not exist"));
    let r = request_directory_access(request(), true, false, None);
    assert_eq!(r.error.as_deref(), Some("Path is not a directory"));
    let r = request_directory_access(request(), true, true, Some("denied"));
    assert!(!r.success);
    assert_eq!(r.path, None);
    assert_eq!(r.error.as_deref(), Some("Cannot access directory: denied"));
    let r = request_directory_access(request(), true, true, None);
    assert!(r.success);
    assert_eq!(r.path.as_deref(), Some("/w"));
    let r = start_accessing_directory(true, true, Some("denied"));
    assert!(!r.success);
    assert_eq!(r.error.as_deref(), Some("Failed to access directory: denied"));
    assert!(start_accessing_directory(true, true, None).success);
    assert_eq!(start_accessing_directory(false, true, None).error.as_deref(), Some("Directory does not exist"));
    let r = stop_accessing_directory();
    assert!(r.success && r.error.is_none());
}

#[test]
fn the_shell_environment_has_defaults() {
    let vars = apply_terminal_environment(None, Some("24bit".to_string()), None, None, "1.2.3", "/bin/fish");
    let shown: Vec<(&str, &str)> = vars.iter().map(|v| (v.name.as_str(), v.value.as_str())).collect();
    assert_eq!(
        shown,
        vec![
            ("TERM", DEFAULT_TERM),
            ("COLORTERM", "24bit"),
            ("LC_ALL", DEFAULT_LOCALE),
            ("LANG", DEFAULT_LOCALE),
            ("TERM_PROGRAM", TERM_PROGRAM_NAME),
            ("TERM_PROGRAM_VERSION", "1.2.3"),
            ("OPENCHAMBER_DESKTOP", "1"),
            ("SHELL", "/bin/fish"),
        ]
    );
    assert_eq!(DEFAULT_TERM, "xterm-256color");
    assert_eq!(DEFAULT_COLORTERM, "truecolor");
    assert_eq!(DEFAULT_LOCALE, "en_US.UTF-8");
    assert_eq!(resolve_shell(None), "/bin/zsh");
    assert_eq!(resolve_shell(Some("  ".to_string())), "/bin/zsh");
    assert_eq!(resolve_shell(Some("/bin/bash".to_string())), "/bin/bash");
}
