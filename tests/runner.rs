use grit_core::{AppError, Execution, GitRunner, PROGRAM};

fn run(success: bool, stdout: &str, stderr: &str, status: &str) -> Result<String, AppError> {
    GitRunner::outcome(Execution {
        success,
        stdout: stdout.to_string(),
        stderr: stderr.to_string(),
        status: status.to_string(),
    })
}

fn message(r: Result<String, AppError>) -> String {
    match r {
        Ok(s) => panic!("expected a failure, got {:?}", s),
        Err(e) => e.message(),
    }
}

#[test]
fn success_returns_stdout_even_with_stderr() {
    let r = run(true, "on branch main\n", "warning: something\n", "exit status: 0");
    assert_eq!(r.unwrap(), "on branch main\n");
}

#[test]
fn success_with_empty_stdout_returns_stderr() {
    let r = run(true, "", "Switched to branch 'x'\n", "exit status: 0");
    assert_eq!(r.unwrap(), "Switched to branch 'x'\n");
}

#[test]
fn success_with_both_empty_returns_empty() {
    let r = run(true, "", "", "exit status: 0");
    assert_eq!(r.unwrap(), "");
}

#[test]
fn success_keeps_stdout_untrimmed() {
    let r = run(true, "  \n", "ignored", "exit status: 0");
    assert_eq!(r.unwrap(), "  \n");
}

#[test]
fn failure_joins_trimmed_streams_with_one_newline() {
    let r = run(false, "  partial output \n", "\nerror: bad thing\n\n", "exit status: 1");
    assert_eq!(message(r), "partial output\nerror: bad thing");
}

#[test]
fn failure_with_only_stdout() {
    let r = run(false, " out \n", " \t\n", "exit status: 2");
    assert_eq!(message(r), "out");
}

#[test]
fn failure_with_only_stderr() {
    let r = run(false, "", "fatal: not a git repository\n", "exit status: 128");
    assert_eq!(message(r), "fatal: not a git repository");
}

#[test]
fn failure_with_blank_streams_names_status() {
    let r = run(false, "", "", "exit status: 1");
    let m = message(r);
    assert_eq!(m, "git exited with status exit status: 1");
    assert!(m.contains('1'));
}

#[test]
fn failure_with_whitespace_streams_names_status() {
    let r = run(false, " \n", "\t", "signal: 9 (SIGKILL)");
    assert_eq!(message(r), "git exited with status signal: 9 (SIGKILL)");
}

#[test]
fn failure_text_joins_pieces() {
    assert_eq!(GitRunner::failure_text("a", "b", "x"), "a\nb");
    assert_eq!(GitRunner::failure_text("a", "", "x"), "a");
    assert_eq!(GitRunner::failure_text("", "b", "x"), "b");
    assert_eq!(GitRunner::failure_text("", "", "exit status: 3"), "git exited with status exit status: 3");
}

#[test]
fn invocation_prepends_the_preamble() {
    let inv = GitRunner::invocation(vec!["log".to_string(), "-1".to_string()], "/work".to_string());
    assert_eq!(inv.program, PROGRAM);
    assert_eq!(inv.program, "git");
    assert_eq!(inv.args, vec!["-c", "core.pager=cat", "-c", "color.ui=false", "log", "-1"]);
    assert_eq!(inv.cwd, "/work");
}

#[test]
fn invocation_with_no_arguments_is_the_preamble() {
    let inv = GitRunner::invocation(Vec::new(), ".".to_string());
    assert_eq!(inv.args, vec!["-c", "core.pager=cat", "-c", "color.ui=false"]);
}

#[test]
fn app_error_keeps_its_message() {
    let e = AppError::new("something went wrong".to_string());
    assert_eq!(e.message(), "something went wrong");
    let c = e.clone();
    assert_eq!(c.message(), "something went wrong");
}
