use mcp_client::text::{build_error_line, build_trace_line, check_quit, join_lines};

#[test]
fn check_quit_accepts_only_the_word_quit() {
    assert!(check_quit("quit"));
    assert!(check_quit("QUIT"));
    assert!(check_quit("QuIt"));
    assert!(!check_quit("quit "));
    assert!(!check_quit("quitt"));
    assert!(!check_quit("qui"));
    assert!(!check_quit(""));
    assert!(!check_quit("exit"));
}

#[test]
fn join_lines_inserts_single_newlines() {
    assert_eq!(join_lines(&vec![]), "");
    assert_eq!(join_lines(&vec!["one".to_string()]), "one");
    assert_eq!(
        join_lines(&vec!["one".to_string(), "".to_string(), "three".to_string()]),
        "one\n\nthree"
    );
}

#[test]
fn trace_line_names_tool_and_arguments() {
    assert_eq!(
        build_trace_line("add", "{\"a\":2,\"b\":3}"),
        "[Calling tool add with args {\"a\":2,\"b\":3}]"
    );
}

#[test]
fn error_line_prefixes_the_message() {
    assert_eq!(build_error_line("Tool call add failed"), "Error: Tool call add failed");
}
