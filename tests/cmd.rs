use command_manager::cmd::{Cmd, CmdError};

fn exec_valid_cmd(line: &str) -> Cmd {
    let cmd = Cmd::new(line);

    assert!(cmd.is_ok());
    let cmd = cmd.unwrap();

    assert_eq!(cmd.program(), "sh");
    cmd
}

#[test]
fn test_parsing() {
    let cmd = exec_valid_cmd("cd ~/");
    assert_eq!(cmd.arguments(), &vec!["-c".to_string(), "cd ~/".to_string()]);
}

#[test]
fn test_initial_sh() {
    let cmd = exec_valid_cmd("cd");
    assert_eq!(cmd.arguments(), &vec!["-c".to_string(), "cd".to_string()]);
}

#[test]
fn test_initial_sh_with_args() {
    let cmd = exec_valid_cmd("sh -c cd");
    assert_eq!(cmd.arguments(), &vec!["-c".to_string(), "cd".to_string()]);
}

#[test]
fn words_are_joined_by_single_spaces() {
    let cmd = exec_valid_cmd("  ls \t -la   /tmp\n");
    assert_eq!(cmd.arguments(), &vec!["-c".to_string(), "ls -la /tmp".to_string()]);
}

#[test]
fn bare_sh_has_no_arguments() {
    let cmd = exec_valid_cmd("  sh ");
    assert!(cmd.arguments().is_empty());
}

#[test]
fn empty_line_is_refused() {
    assert_eq!(Cmd::new("").unwrap_err(), CmdError::Empty);
    assert_eq!(Cmd::new(" \t\n").unwrap_err(), CmdError::Empty);
}

#[test]
fn dash_c_without_sh_is_refused() {
    assert_eq!(Cmd::new("bash -c ls").unwrap_err(), CmdError::Invalid);
}

#[test]
fn parse_line_keeps_non_ascii_words() {
    let (cmd, args) = Cmd::parse_line("echo héllo wörld").unwrap();
    assert_eq!(cmd, "sh");
    assert_eq!(args, vec!["-c".to_string(), "echo héllo wörld".to_string()]);
}
