use aionui_ai_agent::shell::{
    basename, cut_to_bytes, resolve_shell, shell_hint, shell_report, write_report, ShellEnv, ShellRun,
};

fn unix(shell: Option<&str>, chosen: Option<&str>) -> ShellEnv {
    ShellEnv {
        windows: false,
        os: "linux".to_string(),
        override_shell: chosen.map(|s| s.to_string()),
        shell: shell.map(|s| s.to_string()),
        comspec: None,
    }
}

#[test]
fn run_shell_captures_stdout_and_exit_zero() {
    let (out, err) = shell_report(
        "bash",
        &ShellRun::Ended {
            exit: Some(0),
            success: true,
            stdout: b"hello_from_shell\n".to_vec(),
            stderr: vec![],
        },
    );
    assert!(!err, "expected success, got: {out}");
    assert!(out.contains("hello_from_shell"), "missing stdout: {out}");
    assert!(out.contains("exit code: 0"), "missing exit code: {out}");
}

#[test]
fn run_shell_reports_nonzero_exit_as_error() {
    let (out, err) = shell_report(
        "bash",
        &ShellRun::Ended { exit: Some(3), success: false, stdout: vec![], stderr: vec![] },
    );
    assert!(err, "expected error flag for non-zero exit: {out}");
    assert!(out.contains("exit code: 3"), "missing exit code: {out}");
}

#[test]
fn commands_that_do_not_end_are_errors() {
    let (out, err) = shell_report("bash", &ShellRun::TimedOut);
    assert!(err);
    assert!(out.contains("120"), "the limit is told: {out}");
    let (out, err) = shell_report("zsh", &ShellRun::LaunchFailed("no such file".to_string()));
    assert!(err);
    assert!(out.contains("no such file"), "{out}");
}

#[test]
fn bytes_that_are_no_text_are_shown_all_the_same() {
    let (out, _) = shell_report(
        "bash",
        &ShellRun::Ended { exit: Some(0), success: true, stdout: vec![b'a', 0xff, b'b'], stderr: vec![] },
    );
    assert!(out.contains("a\u{fffd}b"), "{out}");
}

#[test]
fn shell_hint_has_os_prefix() {
    let hint = shell_hint(&unix(Some("/bin/zsh"), None));
    assert!(hint.contains('/'), "hint should be os/shell: {hint}");
    assert_eq!(hint, "linux/zsh");
}

#[test]
fn basename_handles_both_separators() {
    assert_eq!(basename("/bin/zsh"), "zsh");
    assert_eq!(basename(r"C:\Windows\System32\cmd.exe"), "cmd.exe");
    assert_eq!(basename("bash"), "bash");
}

#[test]
fn a_chosen_shell_comes_first() {
    let spec = resolve_shell(&unix(Some("/bin/zsh"), Some("/opt/fish")));
    assert_eq!(spec.program, "/opt/fish");
    let spec = resolve_shell(&unix(Some("/bin/zsh"), None));
    assert_eq!(spec.program, "/bin/zsh");
    assert_eq!(spec.arg, "-c");
}

#[test]
fn cut_texts_end_at_a_character() {
    assert_eq!(cut_to_bytes("abc", 3), None);
    assert_eq!(cut_to_bytes("abcd", 3).as_deref(), Some("abc"));
    assert_eq!(cut_to_bytes("aéb", 2).as_deref(), Some("a"));
    assert_eq!(cut_to_bytes("aéb", 3).as_deref(), Some("aé"));
}

#[test]
fn reports_show_both_streams() {
    let out = write_report(Some(1), "out", "err");
    assert!(out.contains("out") && out.contains("err") && out.contains("exit code: 1"), "{out}");
    let blank = write_report(None, "  ", "");
    assert!(!blank.contains("stdout"), "{blank}");
}
