use lxc_rust::executor::classify_outcome;
use lxc_rust::executor::ExecError;
use lxc_rust::executor::RawOutcome;

#[test]
fn zero_exit_is_success_with_captured_output() {
    let r = classify_outcome(RawOutcome::Completed {
        code: 0,
        stdout: b"done\n".to_vec(),
        stderr: Vec::new(),
    });
    let o = r.unwrap();
    assert_eq!(o.exit_code, 0);
    assert_eq!(o.stdout, b"done\n".to_vec());
    assert_eq!(o.stderr, Vec::<u8>::new());
}

#[test]
fn nonzero_exit_preserves_code_and_stderr() {
    let r = classify_outcome(RawOutcome::Completed {
        code: 1,
        stdout: Vec::new(),
        stderr: b"name already exists".to_vec(),
    });
    assert_eq!(
        r.unwrap_err(),
        ExecError::NonZeroExit { code: 1, stderr: b"name already exists".to_vec() }
    );
}

#[test]
fn spawn_failure_carries_its_cause() {
    let r = classify_outcome(RawOutcome::SpawnError { cause: "No such file or directory".to_string() });
    assert_eq!(r.unwrap_err(), ExecError::SpawnFailed { cause: "No such file or directory".to_string() });
}

#[test]
fn timeout_is_reported_with_stderr() {
    let r = classify_outcome(RawOutcome::TimedOut { stderr: b"partial".to_vec() });
    assert_eq!(r.unwrap_err(), ExecError::TimedOut { stderr: b"partial".to_vec() });
}

#[test]
fn cancellation_is_reported_with_stderr() {
    let r = classify_outcome(RawOutcome::Cancelled { stderr: Vec::new() });
    assert_eq!(r.unwrap_err(), ExecError::Cancelled { stderr: Vec::new() });
}
