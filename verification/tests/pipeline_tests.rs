use vshell::builtins::{cd_failed, BuiltinAction, EnvInfo};
use vshell::output::Output;
use vshell::resolve::{search_command, Command};
use vshell::router::render_tagged;
use vshell::tokens::{handle_tokens, split_line};

fn run_builtin_line(line: &str, env: &EnvInfo) -> (String, String, Option<BuiltinAction>) {
    let tokens = split_line(line).unwrap();
    let parsed = handle_tokens(tokens).unwrap();
    match search_command(&parsed.command) {
        Some(Command::BuiltinCommand(b)) => {
            let mut out = Output::new();
            let action = b.to_impl(&parsed.args, env, &mut out);
            (render_tagged(&out, false), render_tagged(&out, true), Some(action))
        }
        _ => panic!("line {:?} must resolve to a builtin", line),
    }
}

fn bare_env() -> EnvInfo {
    EnvInfo { cwd: None, home: None }
}

#[test]
fn full_line_echo_with_redirect() {
    let tokens = split_line("echo hi > out.txt").unwrap();
    let parsed = handle_tokens(tokens).unwrap();
    assert_eq!(parsed.command, "echo");
    assert_eq!(parsed.args, vec!["hi".to_string()]);
    assert_eq!(parsed.redirect_stdout.as_deref(), Some("out.txt"));
    assert!(!parsed.append_stdout);
    let (out, err, action) = run_builtin_line("echo hi > out.txt", &bare_env());
    assert_eq!(out, "hi\n");
    assert_eq!(err, "");
    assert!(matches!(action, Some(BuiltinAction::Done)));
}

#[test]
fn full_line_append_mode_parses() {
    let parsed = handle_tokens(split_line("echo hi >> out.txt").unwrap()).unwrap();
    assert!(parsed.append_stdout);
    assert_eq!(parsed.redirect_stdout.as_deref(), Some("out.txt"));
}

#[test]
fn full_line_quoted_echo() {
    let (out, err, _) = run_builtin_line("echo 'a  b'  c", &bare_env());
    assert_eq!(out, "a  b c\n");
    assert_eq!(err, "");
}

#[test]
fn full_line_type_echo() {
    let (out, err, action) = run_builtin_line("type echo", &bare_env());
    assert_eq!(out, "echo is a shell builtin\n");
    assert_eq!(err, "");
    assert!(matches!(action, Some(BuiltinAction::Done)));
}

#[test]
fn full_line_exit_code() {
    let (out, err, action) = run_builtin_line("exit 42", &bare_env());
    assert_eq!(out, "");
    assert_eq!(err, "");
    assert!(matches!(action, Some(BuiltinAction::Exit(42))));
}

#[test]
fn full_line_exit_too_many() {
    let (out, err, action) = run_builtin_line("exit 1 2", &bare_env());
    assert_eq!(out, "");
    assert_eq!(err, "exit: too many arguments\n");
    assert!(matches!(action, Some(BuiltinAction::Done)));
}

#[test]
fn full_line_pwd_reflects_directory() {
    let env = EnvInfo { cwd: Some("/tmp".to_string()), home: None };
    let (out, err, _) = run_builtin_line("pwd", &env);
    assert_eq!(out, "/tmp\n");
    assert_eq!(err, "");
}

#[test]
fn full_line_cd_to_missing_directory() {
    let env = EnvInfo { cwd: None, home: None };
    let tokens = split_line("cd /does/not/exist").unwrap();
    let parsed = handle_tokens(tokens).unwrap();
    match search_command(&parsed.command) {
        Some(Command::BuiltinCommand(b)) => {
            let mut out = Output::new();
            let action = b.to_impl(&parsed.args, &env, &mut out);
            // the target does not exist, so the caller's change fails
            match action {
                BuiltinAction::ChangeDir(target) => {
                    assert_eq!(target, "/does/not/exist");
                    cd_failed(&target, &mut out);
                }
                _ => panic!("cd must hand back its target"),
            }
            assert_eq!(render_tagged(&out, true), "cd: /does/not/exist: No such file or directory\n");
            assert_eq!(render_tagged(&out, false), "");
        }
        _ => panic!("cd must resolve to a builtin"),
    }
}
