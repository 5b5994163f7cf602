use vshell::tokens::{handle_tokens, split_line};

fn toks(words: &[&str]) -> Vec<String> {
    words.iter().map(|w| w.to_string()).collect()
}

#[test]
fn split_words_respects_quotes() {
    let ws = split_line("echo 'a b' c").unwrap();
    assert_eq!(ws, vec!["echo".to_string(), "a b".to_string(), "c".to_string()]);
}

#[test]
fn split_double_quotes_group() {
    let ws = split_line("cat \"one two\"").unwrap();
    assert_eq!(ws, vec!["cat".to_string(), "one two".to_string()]);
}

#[test]
fn split_reports_malformed_quoting() {
    assert!(split_line("echo \"unclosed").is_err());
    assert!(split_line("echo 'unclosed").is_err());
}

#[test]
fn split_empty_line_gives_no_words() {
    let ws = split_line("").unwrap();
    assert!(ws.is_empty());
}

#[test]
fn parse_plain_args() {
    let p = handle_tokens(toks(&["echo", "a", "b", "c"])).unwrap();
    assert_eq!(p.command, "echo");
    assert_eq!(p.args, vec!["a".to_string(), "b".to_string(), "c".to_string()]);
    assert!(p.redirect_stdout.is_none());
    assert!(p.redirect_stderr.is_none());
    assert!(!p.append_stdout);
    assert!(!p.append_stderr);
}

#[test]
fn parse_stdout_redirect_truncate() {
    for op in [">", "1>"] {
        let p = handle_tokens(toks(&["echo", "hi", op, "out.txt"])).unwrap();
        assert_eq!(p.command, "echo");
        assert_eq!(p.args, vec!["hi".to_string()]);
        assert_eq!(p.redirect_stdout.as_deref(), Some("out.txt"));
        assert!(!p.append_stdout);
        assert!(p.redirect_stderr.is_none());
    }
}

#[test]
fn parse_stdout_redirect_append() {
    for op in [">>", "1>>"] {
        let p = handle_tokens(toks(&["echo", "hi", op, "out.txt"])).unwrap();
        assert_eq!(p.redirect_stdout.as_deref(), Some("out.txt"));
        assert!(p.append_stdout);
    }
}

#[test]
fn parse_stderr_redirect_truncate() {
    let p = handle_tokens(toks(&["ls", "nope", "2>", "err.txt"])).unwrap();
    assert_eq!(p.args, vec!["nope".to_string()]);
    assert_eq!(p.redirect_stderr.as_deref(), Some("err.txt"));
    assert!(!p.append_stderr);
    assert!(p.redirect_stdout.is_none());
}

#[test]
fn parse_stderr_redirect_append() {
    let p = handle_tokens(toks(&["ls", "2>>", "err.txt"])).unwrap();
    assert_eq!(p.redirect_stderr.as_deref(), Some("err.txt"));
    assert!(p.append_stderr);
}

#[test]
fn parse_missing_target_is_error() {
    for op in [">", "1>", ">>", "1>>", "2>", "2>>"] {
        assert!(handle_tokens(toks(&["echo", "hi", op])).is_none());
    }
}

#[test]
fn parse_empty_tokens() {
    assert!(handle_tokens(Vec::new()).is_none());
}

#[test]
fn parse_last_redirect_wins() {
    let p = handle_tokens(toks(&["echo", "hi", ">>", "first", ">", "second"])).unwrap();
    assert_eq!(p.redirect_stdout.as_deref(), Some("second"));
    assert!(!p.append_stdout);
    let p = handle_tokens(toks(&["echo", "hi", ">", "first", ">>", "second"])).unwrap();
    assert_eq!(p.redirect_stdout.as_deref(), Some("second"));
    assert!(p.append_stdout);
}

#[test]
fn parse_operators_interleaved_with_args() {
    let p = handle_tokens(toks(&["cmd", "a", ">", "o", "b", "2>", "e", "c"])).unwrap();
    assert_eq!(p.args, vec!["a".to_string(), "b".to_string(), "c".to_string()]);
    assert_eq!(p.redirect_stdout.as_deref(), Some("o"));
    assert_eq!(p.redirect_stderr.as_deref(), Some("e"));
}

#[test]
fn parse_operator_token_taken_as_path() {
    let p = handle_tokens(toks(&["echo", "hi", ">", ">"])).unwrap();
    assert_eq!(p.redirect_stdout.as_deref(), Some(">"));
    assert_eq!(p.args, vec!["hi".to_string()]);
}

#[test]
fn parse_command_word_alone() {
    let p = handle_tokens(toks(&["pwd"])).unwrap();
    assert_eq!(p.command, "pwd");
    assert!(p.args.is_empty());
}
