use boxer::command::{shell_invocation, tokenize, trim_ws};

#[test]
fn tokenize_splits_on_whitespace() {
    let tokens = tokenize("npm run build");
    assert_eq!(tokens, vec!["npm".to_string(), "run".to_string(), "build".to_string()]);
}

#[test]
fn tokenize_collapses_repeated_whitespace() {
    let tokens = tokenize("  cargo\tbuild \n --release ");
    assert_eq!(tokens, vec!["cargo".to_string(), "build".to_string(), "--release".to_string()]);
}

#[test]
fn tokenize_of_blank_input_is_empty() {
    assert_eq!(tokenize(""), Vec::<String>::new());
    assert_eq!(tokenize("   \t  "), Vec::<String>::new());
}

#[test]
fn posix_invocation_runs_command_through_sh() {
    let cmd = shell_invocation("npm run build", false);
    assert_eq!(cmd.program, "sh");
    assert_eq!(cmd.args, vec!["-c".to_string(), "npm run build".to_string()]);
}

#[test]
fn windows_invocation_runs_command_through_cmd() {
    let cmd = shell_invocation("npm run build", true);
    assert_eq!(cmd.program, "cmd");
    assert_eq!(cmd.args, vec!["/c".to_string(), "npm run build".to_string()]);
}

#[test]
fn trim_strips_surrounding_whitespace() {
    assert_eq!(trim_ws("https://example.test/repo.git\n"), "https://example.test/repo.git");
    assert_eq!(trim_ws("  spaced  "), "spaced");
    assert_eq!(trim_ws("unchanged"), "unchanged");
    assert_eq!(trim_ws(" \t\r\n "), "");
}
