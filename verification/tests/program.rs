use lsp_proxy::config::Lang;
use lsp_proxy::file_sync::FileSyncError;
use lsp_proxy::program::{
    ExitEvent, MAX_INPUT_SIZE, ProgramSlot, RunRequest, UserProgramError, await_exit_outcome,
    combine_outputs, compile_outcome, input_fits, program_stdin_line, run_file_outcome,
    run_program_file, slot_admission, split_lines, stop_outcome,
};

#[test]
fn slot_holds_at_most_one_run() {
    let mut slot = ProgramSlot::new();
    assert_eq!(slot.occupant(), None);
    assert_eq!(slot.install(1), None);
    assert_eq!(slot.occupant(), Some(1));
    // a second run replaces the first rather than standing beside it
    assert_eq!(slot.install(2), Some(1));
    assert_eq!(slot.occupant(), Some(2));
    assert_eq!(slot.clear(), Some(2));
    assert_eq!(slot.occupant(), None);
}

#[test]
fn missing_target_is_refused_without_any_command() {
    let r = run_program_file(false, Lang::Java, "/ws", "/ws/src/Hello.java", "src/Hello.java");
    // not-found carries no plan, so no external command can be invoked
    assert!(matches!(r, RunRequest::NotFound));
}

#[test]
fn unsupported_languages_are_refused() {
    let r = run_program_file(true, Lang::C, "/ws", "/ws/a.c", "a.c");
    assert!(matches!(r, RunRequest::Unsupported));
    let r = run_program_file(true, Lang::Custom, "/ws", "/ws/a", "a");
    assert!(matches!(r, RunRequest::Unsupported));
}

#[test]
fn java_run_compiles_then_runs_in_the_workspace() {
    let r = run_program_file(true, Lang::Java, "/ws", "/ws/src/Hello.java", "src/Hello.java");
    match r {
        RunRequest::Proceed(p) => {
            assert_eq!(p.compile.program, "javac");
            assert_eq!(p.compile.current_dir, "/ws");
            assert_eq!(p.compile.args, vec!["/ws/src/Hello.java".to_string()]);
            assert!(p.compile.capture_stderr);
            assert_eq!(p.run.program, "java");
            assert_eq!(p.run.current_dir, "/ws");
            assert_eq!(p.run.args, vec!["src/Hello.java".to_string()]);
            assert!(p.run.capture_stderr);
        }
        _ => panic!("expected a run plan"),
    }
}

#[test]
fn compile_failures_short_circuit() {
    assert!(compile_outcome(true, true).is_ok());
    assert_eq!(compile_outcome(false, true), Err(UserProgramError::FailedCompilation));
    assert_eq!(compile_outcome(true, false), Err(UserProgramError::FailedCompilation));
}

#[test]
fn contended_slot_fails_fast() {
    assert!(slot_admission(true).is_ok());
    assert_eq!(slot_admission(false), Err(UserProgramError::FailedProgramLock));
}

#[test]
fn cancelled_await_reports_no_output() {
    // returns promptly — nothing here waits on the process at all
    let r = await_exit_outcome(ExitEvent::Cancelled);
    assert_eq!(r, Err(UserProgramError::NoOutput));
}

#[test]
fn exited_await_hands_back_the_streams() {
    let ev = ExitEvent::Exited { stdout: b"out".to_vec(), stderr: b"err".to_vec() };
    assert_eq!(await_exit_outcome(ev), Ok((b"out".to_vec(), b"err".to_vec())));
}

#[test]
fn outputs_are_combined_compiler_first() {
    let r = combine_outputs(&b"ce".to_vec(), &b"co".to_vec(), &b"ro".to_vec(), &b"re".to_vec());
    assert_eq!(r, b"cecorore".to_vec());
}

#[test]
fn timed_out_run_is_a_timeout_failure() {
    let r = run_file_outcome(&Vec::new(), &Vec::new(), ExitEvent::TimedOut);
    match r {
        Err(e @ FileSyncError::Timeout) => assert_eq!(e.status_code(), 504),
        _ => panic!("expected Timeout"),
    }
}

#[test]
fn completed_run_delivers_the_combined_payload() {
    let ev = ExitEvent::Exited { stdout: b"hello\n".to_vec(), stderr: Vec::new() };
    let r = run_file_outcome(&b"warning\n".to_vec(), &Vec::new(), ev);
    assert_eq!(r.unwrap(), b"warning\nhello\n".to_vec());
}

#[test]
fn stdin_lines_get_a_trailing_newline() {
    assert_eq!(program_stdin_line("input"), "input\n");
    assert_eq!(program_stdin_line(""), "\n");
}

#[test]
fn input_cap_is_enforced_at_the_boundary() {
    assert!(input_fits(0, MAX_INPUT_SIZE));
    assert!(input_fits(MAX_INPUT_SIZE - 1, 1));
    assert!(!input_fits(MAX_INPUT_SIZE, 1));
    assert!(!input_fits(1, MAX_INPUT_SIZE));
    assert!(!input_fits(usize::MAX, usize::MAX));
}

#[test]
fn staged_input_splits_on_newlines() {
    assert_eq!(split_lines("a\nbb\nccc"), vec!["a", "bb", "ccc"]);
    assert_eq!(split_lines("a\nb\n"), vec!["a", "b", ""]);
    assert_eq!(split_lines(""), vec![""]);
    assert_eq!(split_lines("\n"), vec!["", ""]);
    assert_eq!(split_lines("no newline"), vec!["no newline"]);
}

#[test]
fn stopping_with_nothing_running_is_no_program() {
    assert_eq!(stop_outcome(None, true), Err(UserProgramError::NoProgram));
}

#[test]
fn stopping_a_run_clears_it_or_reports_failed_kill() {
    assert_eq!(stop_outcome(Some(7), true), Ok(7));
    assert_eq!(stop_outcome(Some(7), false), Err(UserProgramError::FailedKill));
}

#[test]
fn runner_errors_read_as_their_conditions() {
    assert_eq!(UserProgramError::FailedRun.message(), "Program failed to start");
    assert_eq!(UserProgramError::FailedCompilation.message(), "Program failed to compile");
    assert_eq!(UserProgramError::NoProgram.message(), "No program to run");
    assert_eq!(UserProgramError::FailedKill.message(), "Program failed to exit");
    assert_eq!(
        UserProgramError::UnsupportedLanguage.message(),
        "Running this programming language is not currently supported"
    );
    assert_eq!(
        UserProgramError::FailedProgramLock.message(),
        "Failed to acquire lock on running program"
    );
    assert_eq!(UserProgramError::NoOutput.message(), "Failed to get output from the program");
    assert_eq!(UserProgramError::FailedRun.status_code(), 500);
}
