use gha_badge::errors::BadgeError;
use gha_badge::repo::repo_name_from_path;
use gha_badge::resolver::config_value_from_lines;
use gha_badge::resolver::extract_name_value;
use gha_badge::resolver::resolve_username;
use gha_badge::text::contains_str;
use gha_badge::text::trim_str;

#[test]
fn config_value_overrides_flag_and_env() {
    let r = resolve_username("conf", "flag", Some("env"));
    assert_eq!(r.unwrap(), "conf");
}

#[test]
fn flag_used_when_config_empty() {
    let r = resolve_username("", "flag", Some("env"));
    assert_eq!(r.unwrap(), "flag");
}

#[test]
fn env_used_when_config_and_flag_empty() {
    let r = resolve_username("", "", Some("env"));
    assert_eq!(r.unwrap(), "env");
}

#[test]
fn missing_username_when_all_sources_empty() {
    assert_eq!(resolve_username("", "", None), Err(BadgeError::MissingUsername));
    assert_eq!(resolve_username("", "", Some("")), Err(BadgeError::MissingUsername));
}

#[test]
fn error_messages() {
    assert_eq!(BadgeError::MissingUsername.message(), "Not set GITHUB_USERNAME");
    assert_eq!(
        BadgeError::WorkflowDirectoryNotFound.message(),
        "Not found .github/workflows"
    );
}

#[test]
fn config_last_matching_line_wins() {
    let lines = vec![
        String::from("[user]"),
        String::from("\tname = first"),
        String::from("\temail = first@example.com"),
        String::from("\tname = second"),
    ];
    assert_eq!(config_value_from_lines(&lines), "second");
}

#[test]
fn config_no_matching_line_yields_empty() {
    let lines = vec![String::from("[user]"), String::from("\temail = a@b.c")];
    assert_eq!(config_value_from_lines(&lines), "");
}

#[test]
fn config_empty_file_yields_empty() {
    let lines: Vec<String> = Vec::new();
    assert_eq!(config_value_from_lines(&lines), "");
}

#[test]
fn extract_name_value_trims_and_drops_token() {
    assert_eq!(extract_name_value("\tname = octocat "), "octocat");
    assert_eq!(extract_name_value("name = a b"), "a b");
    assert_eq!(extract_name_value("  username = x"), "username = x");
}

#[test]
fn trim_str_cases() {
    assert_eq!(trim_str("  a b\t"), "a b");
    assert_eq!(trim_str("\r\n"), "");
    assert_eq!(trim_str("abc"), "abc");
}

#[test]
fn contains_str_cases() {
    assert!(contains_str("\tname = x", "name ="));
    assert!(!contains_str("email = x", "name ="));
    assert!(contains_str("anything", ""));
}

#[test]
fn repo_name_is_last_path_segment() {
    assert_eq!(repo_name_from_path("/home/user/test"), "test");
    assert_eq!(repo_name_from_path("test"), "test");
    assert_eq!(repo_name_from_path("/a/b/"), "");
    assert_eq!(repo_name_from_path(""), "");
}
