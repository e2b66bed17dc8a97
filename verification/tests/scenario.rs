//! End-to-end scenarios at the library boundary: resolve the username,
//! derive the repository name from the working directory, render the badges.

use gha_badge::badge::render_badges;
use gha_badge::errors::BadgeError;
use gha_badge::repo::repo_name_from_path;
use gha_badge::resolver::{config_value_from_lines, resolve_username};

#[test]
fn scenario_flag_without_link() {
    let config_lines: Vec<String> = Vec::new();
    let config_user = config_value_from_lines(&config_lines);
    let username = resolve_username(&config_user, "sample", None).unwrap();
    let repo = repo_name_from_path("/home/user/test");
    let files = vec![String::from("test.yml")];
    let out = render_badges(&username, &repo, &files, false);
    assert_eq!(
        out,
        "![action](https://github.com/sample/test/actions/workflows/test.yml/badge.svg)\n"
    );
}

#[test]
fn scenario_flag_with_link() {
    let config_lines: Vec<String> = Vec::new();
    let config_user = config_value_from_lines(&config_lines);
    let username = resolve_username(&config_user, "sample", None).unwrap();
    let repo = repo_name_from_path("/home/user/test");
    let files = vec![String::from("test.yml")];
    let out = render_badges(&username, &repo, &files, true);
    assert_eq!(
        out,
        "[![action](https://github.com/sample/test/actions/workflows/test.yml/badge.svg)](https://github.com/sample/test/actions)\n"
    );
}

#[test]
fn scenario_config_file_overrides_flag() {
    let config_lines = vec![String::from("[user]"), String::from("\tname = fromconfig")];
    let config_user = config_value_from_lines(&config_lines);
    let username = resolve_username(&config_user, "sample", Some("fromenv")).unwrap();
    assert_eq!(username, "fromconfig");
}

#[test]
fn scenario_no_username_anywhere() {
    let config_lines: Vec<String> = Vec::new();
    let config_user = config_value_from_lines(&config_lines);
    let err = resolve_username(&config_user, "", None).unwrap_err();
    assert_eq!(err, BadgeError::MissingUsername);
    assert_eq!(err.message(), "Not set GITHUB_USERNAME");
}
