use jvlauncher::errors::ToolError;
use jvlauncher::shell_words::split;
use jvlauncher::tools::{parse_command, ToolAction};

#[test]
fn test_split_double_quotes() {
    let words = split("echo \"hello world\"").unwrap();
    assert_eq!(words, vec!["echo".to_string(), "hello world".to_string()]);
}

#[test]
fn test_split_single_quotes_and_escapes() {
    let words = split("printf 'a b' c\\ d").unwrap();
    assert_eq!(words, vec!["printf".to_string(), "a b".to_string(), "c d".to_string()]);
}

#[test]
fn test_split_collapses_blanks() {
    let words = split("  ls   -la\t/tmp ").unwrap();
    assert_eq!(words, vec!["ls".to_string(), "-la".to_string(), "/tmp".to_string()]);
}

#[test]
fn test_split_no_expansion() {
    let words = split("echo $HOME *").unwrap();
    assert_eq!(words, vec!["echo".to_string(), "$HOME".to_string(), "*".to_string()]);
}

#[test]
fn test_parse_command_quoted_argument() {
    match parse_command("echo \"hello world\"").unwrap() {
        ToolAction::RunCommand { program, args } => {
            assert_eq!(program, "echo");
            assert_eq!(args, vec!["hello world".to_string()]);
        }
        other => panic!("unexpected action: {:?}", other),
    }
}

#[test]
fn test_parse_command_empty() {
    match parse_command("   ") {
        Err(ToolError::EmptyCommand) => {}
        other => panic!("unexpected result: {:?}", other),
    }
}
