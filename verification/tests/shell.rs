use radcontrol::error::O2Error;
use radcontrol::shell::{compose_output, run_shell_output, ShellExit};

fn exit(code: Option<i32>, stdout: &str, stderr: &str) -> Result<ShellExit, String> {
    Ok(ShellExit { code, stdout: stdout.to_string(), stderr: stderr.to_string() })
}

#[test]
fn compose_prefers_the_stream_that_is_not_empty() {
    assert_eq!(compose_output("out".to_string(), String::new()), "out");
    assert_eq!(compose_output(String::new(), "err".to_string()), "err");
    assert_eq!(compose_output(String::new(), String::new()), "");
}

#[test]
fn compose_joins_both_streams_with_one_newline() {
    assert_eq!(compose_output("out".to_string(), "err".to_string()), "out\nerr");
    assert_eq!(compose_output("out\n".to_string(), "err\n".to_string()), "out\n\nerr\n");
}

#[test]
fn zero_exit_gives_the_composed_text() {
    assert_eq!(run_shell_output(exit(Some(0), "done\n", "")), Ok("done\n".to_string()));
    assert_eq!(run_shell_output(exit(Some(0), "a", "b")), Ok("a\nb".to_string()));
    assert_eq!(run_shell_output(exit(Some(0), "", "")), Ok(String::new()));
}

#[test]
fn non_zero_exit_carries_code_and_text() {
    let r = run_shell_output(exit(Some(3), "a", "b"));
    assert_eq!(r, Err(O2Error::NonZeroExit { code: Some(3), output: "a\nb".to_string() }));
    assert_eq!(r.unwrap_err().message(), "Command failed (exit 3):\na\nb");
    let r = run_shell_output(exit(Some(-7), "", "bad"));
    assert_eq!(r.unwrap_err().message(), "Command failed (exit -7):\nbad");
}

#[test]
fn missing_exit_code_is_shown_as_minus_one() {
    let r = run_shell_output(exit(None, "", "killed"));
    assert_eq!(r, Err(O2Error::NonZeroExit { code: None, output: "killed".to_string() }));
    assert_eq!(r.unwrap_err().message(), "Command failed (exit -1):\nkilled");
}

#[test]
fn spawn_failure_carries_the_reason() {
    let r = run_shell_output(Err("No such file or directory (os error 2)".to_string()));
    assert_eq!(
        r,
        Err(O2Error::SpawnFailed { reason: "No such file or directory (os error 2)".to_string() })
    );
    assert_eq!(
        r.unwrap_err().message(),
        "Failed to spawn shell: No such file or directory (os error 2)"
    );
}
