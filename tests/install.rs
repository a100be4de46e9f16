use vscode_update::install::{install_command, installer_succeeded};

#[test]
fn install_command_passes_path_last() {
    let cmd = install_command("/tmp/foo bar.deb");
    assert_eq!(cmd.program, "sudo");
    assert_eq!(cmd.args, vec!["dpkg".to_string(), "-i".to_string(), "/tmp/foo bar.deb".to_string()]);
}

#[test]
fn only_exit_status_zero_succeeds() {
    assert!(installer_succeeded(Some(0)));
    assert!(!installer_succeeded(Some(1)));
    assert!(!installer_succeeded(Some(2)));
    assert!(!installer_succeeded(Some(-1)));
    assert!(!installer_succeeded(None));
}
