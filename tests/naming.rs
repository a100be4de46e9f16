use vscode_update::download::{is_success_status, on_response};
use vscode_update::error::RunError;
use vscode_update::naming::{dest_file_name, destination_path, join_path, DEFAULT_FILE_NAME};

#[test]
fn file_name_from_final_segment() {
    assert_eq!(dest_file_name("/stable/foo-bar_amd64.deb"), "foo-bar_amd64.deb");
    assert_eq!(dest_file_name("/foo-bar_amd64.deb"), "foo-bar_amd64.deb");
}

#[test]
fn file_name_default_on_empty_final_segment() {
    assert_eq!(dest_file_name("/latest/linux-deb-x64/"), "vscode.deb");
    assert_eq!(dest_file_name("/"), "vscode.deb");
    assert_eq!(DEFAULT_FILE_NAME, "vscode.deb");
}

#[test]
fn file_name_default_on_missing_path() {
    assert_eq!(dest_file_name(""), "vscode.deb");
    assert_eq!(dest_file_name("text/plain,stuff"), "vscode.deb");
}

#[test]
fn file_name_keeps_percent_encoding() {
    assert_eq!(dest_file_name("/a/vi%E1%BB%87t%20nam.deb"), "vi%E1%BB%87t%20nam.deb");
}

#[test]
fn join_adds_one_separator() {
    assert_eq!(join_path("/tmp", "a.deb"), "/tmp/a.deb");
    assert_eq!(join_path("/tmp/", "a.deb"), "/tmp/a.deb");
    assert_eq!(join_path("", "a.deb"), "a.deb");
}

#[test]
fn destination_inside_temp_dir() {
    assert_eq!(destination_path("/tmp", "/d/code_1.90.0-1717531825_amd64.deb"), "/tmp/code_1.90.0-1717531825_amd64.deb");
    assert_eq!(destination_path("/var/tmp/", "/latest/"), "/var/tmp/vscode.deb");
}

#[test]
fn success_statuses_are_2xx() {
    assert!(!is_success_status(199));
    assert!(is_success_status(200));
    assert!(is_success_status(204));
    assert!(is_success_status(299));
    assert!(!is_success_status(300));
    assert!(!is_success_status(404));
    assert!(!is_success_status(500));
}

#[test]
fn response_with_error_status_is_refused() {
    let dir = Some("/tmp".to_string());
    assert_eq!(on_response(404, "/x/a.deb", &dir), Err(RunError::HttpStatus { status: 404 }));
    assert_eq!(on_response(500, "/x/a.deb", &None), Err(RunError::HttpStatus { status: 500 }));
}

#[test]
fn response_without_text_temp_dir_is_refused() {
    assert_eq!(on_response(200, "/x/a.deb", &None), Err(RunError::PathEncoding));
}

#[test]
fn response_with_success_gives_path() {
    let dir = Some("/tmp".to_string());
    assert_eq!(on_response(200, "/x/a.deb", &dir), Ok("/tmp/a.deb".to_string()));
}

#[test]
fn file_name_from_response_url() {
    let url = reqwest::Url::parse("https://example.com/dl/foo-bar_amd64.deb?build=1").unwrap();
    assert_eq!(dest_file_name(url.path()), "foo-bar_amd64.deb");
    let url = reqwest::Url::parse("https://example.com").unwrap();
    assert_eq!(dest_file_name(url.path()), "vscode.deb");
    let url = reqwest::Url::parse("https://example.com/latest/").unwrap();
    assert_eq!(dest_file_name(url.path()), "vscode.deb");
    let url = reqwest::Url::parse("data:text/plain,stuff").unwrap();
    assert_eq!(dest_file_name(url.path()), "vscode.deb");
}
