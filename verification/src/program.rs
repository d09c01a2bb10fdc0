//! The program runner: the single-occupant slot for the running user
//! program, the decisions of the run request pipeline
//! (`Requested → Compiling → Running → Completed | Aborted | Failed`),
//! and the staging of buffered program input.
//!
//! The host executes the plans this module hands out (compile, spawn,
//! await-exit) and reports each step's observation back; every decision in
//! between is made here.

use vstd::prelude::*;
use vstd::string::*;
use crate::config::Lang;
use crate::file_sync::FileSyncError;
use crate::supervisor::LaunchPlan;

verus! {

/// How a run can fail, each reported as a distinct condition.
#[derive(Clone, Copy, Debug, PartialEq, Eq, Structural)]
pub enum UserProgramError {
    FailedRun,
    FailedCompilation,
    NoProgram,
    FailedKill,
    UnsupportedLanguage,
    FailedProgramLock,
    NoOutput,
}

impl UserProgramError {
    /// The status-style code a runner failure is reported with.
    pub fn status_code(&self) -> (code: u16)
        ensures
            code == 500u16,
    {
        500
    }

    /// The textual explanation a runner failure is reported with.
    pub fn message(&self) -> (msg: String)
        ensures
            msg@ == match self {
                UserProgramError::FailedRun => "Program failed to start"@,
                UserProgramError::FailedCompilation => "Program failed to compile"@,
                UserProgramError::NoProgram => "No program to run"@,
                UserProgramError::FailedKill => "Program failed to exit"@,
                UserProgramError::UnsupportedLanguage => "Running this programming language is not currently supported"@,
                UserProgramError::FailedProgramLock => "Failed to acquire lock on running program"@,
                UserProgramError::NoOutput => "Failed to get output from the program"@,
            },
    {
        match self {
            UserProgramError::FailedRun => String::from_str("Program failed to start"),
            UserProgramError::FailedCompilation => String::from_str("Program failed to compile"),
            UserProgramError::NoProgram => String::from_str("No program to run"),
            UserProgramError::FailedKill => String::from_str("Program failed to exit"),
            UserProgramError::UnsupportedLanguage => String::from_str(
                "Running this programming language is not currently supported",
            ),
            UserProgramError::FailedProgramLock => String::from_str(
                "Failed to acquire lock on running program",
            ),
            UserProgramError::NoOutput => String::from_str("Failed to get output from the program"),
        }
    }
}

/// The single-occupant holder for the currently running user program.  The
/// occupant is named by a run identifier; the host keeps the actual process
/// handle, stdin reference and cancellation token under that identifier.
pub struct ProgramSlot {
    occupant: Option<u64>,
}

impl ProgramSlot {
    /// The current occupant's run identifier, if a program is running.
    pub closed spec fn occupant_id(&self) -> Option<u64> {
        self.occupant
    }

    /// How many programs the slot holds: zero or one, never more.
    pub open spec fn occupant_count(&self) -> nat {
        if self.occupant_id() is Some {
            1
        } else {
            0
        }
    }

    /// An empty slot: nothing is running.
    pub fn new() -> (s: ProgramSlot)
        ensures
            s.occupant_id() is None,
    {
        ProgramSlot { occupant: None }
    }

    /// The current occupant, if any.
    pub fn occupant(&self) -> (r: Option<u64>)
        ensures
            r == self.occupant_id(),
    {
        self.occupant
    }

    /// Installs a new run, replacing — and handing back as orphaned — any
    /// previous occupant.  Last request wins; the slot never holds two.
    pub fn install(&mut self, run: u64) -> (prev: Option<u64>)
        ensures
            final(self).occupant_id() == Some(run),
            final(self).occupant_count() == 1,
            prev == old(self).occupant_id(),
    {
        let prev = self.occupant;
        self.occupant = Some(run);
        prev
    }

    /// Clears the slot when the program exits or is stopped, handing back
    /// the occupant that was cleared.
    pub fn clear(&mut self) -> (prev: Option<u64>)
        ensures
            final(self).occupant_id() is None,
            prev == old(self).occupant_id(),
    {
        let prev = self.occupant;
        self.occupant = None;
        prev
    }
}

/// However the slot has been driven, it holds at most one occupant: a
/// second run replaces the first rather than standing beside it.
pub proof fn lemma_slot_at_most_one_occupant(s: ProgramSlot)
    ensures
        s.occupant_count() <= 1,
{
}

/// The slot's try-lock discipline: a request that cannot acquire the slot
/// fails immediately with the lock-contention condition instead of queuing.
pub fn slot_admission(lock_acquired: bool) -> (r: Result<(), UserProgramError>)
    ensures
        lock_acquired ==> r is Ok,
        !lock_acquired ==> r == Err::<(), UserProgramError>(UserProgramError::FailedProgramLock),
{
    if lock_acquired {
        Ok(())
    } else {
        Err(UserProgramError::FailedProgramLock)
    }
}

/// The two command lines one accepted Java run needs: the blocking compile
/// step, then the interactive program itself, both run in the workspace
/// with all streams captured.
pub struct RunPlan {
    pub compile: LaunchPlan,
    pub run: LaunchPlan,
}

/// What a Java run's plans must look like: `javac` on the full file path,
/// then `java` on the workspace-relative path, both in the workspace
/// directory, diagnostics captured.
pub open spec fn java_run_plans(
    p: RunPlan,
    workspace_dir: Seq<char>,
    file_path: Seq<char>,
    rel_path: Seq<char>,
) -> bool {
    &&& p.compile.program@ == "javac"@
    &&& p.compile.current_dir@ == workspace_dir
    &&& p.compile.args.deep_view() == seq![file_path]
    &&& p.compile.capture_stderr
    &&& p.run.program@ == "java"@
    &&& p.run.current_dir@ == workspace_dir
    &&& p.run.args.deep_view() == seq![rel_path]
    &&& p.run.capture_stderr
}

/// The verdict on one run request.
pub enum RunRequest {
    /// The target source file does not exist under the workspace root; the
    /// caller responds not-found and runs nothing.
    NotFound,
    /// The configured language cannot be run.
    Unsupported,
    /// The run may proceed with these plans.
    Proceed(RunPlan),
}

/// Decides a run request.  A target that does not exist under the workspace
/// root is refused outright — no external command is named, so none can be
/// invoked.  Only the Java kind can be run; an accepted request carries the
/// compile and run command lines.
pub fn run_program_file(
    file_exists: bool,
    lang: Lang,
    workspace_dir: &str,
    file_path: &str,
    rel_path: &str,
) -> (r: RunRequest)
    ensures
        !file_exists ==> r is NotFound,
        file_exists && !(lang is Java) ==> r is Unsupported,
        file_exists && lang is Java ==> (r matches RunRequest::Proceed(p) && java_run_plans(
            p,
            workspace_dir@,
            file_path@,
            rel_path@,
        )),
{
    if !file_exists {
        return RunRequest::NotFound;
    }
    match lang {
        Lang::Java => {
            let mut compile_args: Vec<String> = Vec::new();
            compile_args.push(String::from_str(file_path));
            let mut run_args: Vec<String> = Vec::new();
            run_args.push(String::from_str(rel_path));
            let p = RunPlan {
                compile: LaunchPlan {
                    program: String::from_str("javac"),
                    current_dir: String::from_str(workspace_dir),
                    args: compile_args,
                    capture_stderr: true,
                },
                run: LaunchPlan {
                    program: String::from_str("java"),
                    current_dir: String::from_str(workspace_dir),
                    args: run_args,
                    capture_stderr: true,
                },
            };
            proof {
                assert(p.compile.args.deep_view() =~= seq![file_path@]);
                assert(p.run.args.deep_view() =~= seq![rel_path@]);
            }
            RunRequest::Proceed(p)
        },
        _ => RunRequest::Unsupported,
    }
}

/// Classifies the compile step: only an invocation that ran and exited
/// cleanly lets the run continue; anything else is the compilation-failure
/// condition and short-circuits execution.
pub fn compile_outcome(invoked_ok: bool, exit_zero: bool) -> (r: Result<(), UserProgramError>)
    ensures
        invoked_ok && exit_zero ==> r is Ok,
        !(invoked_ok && exit_zero) ==> r == Err::<(), UserProgramError>(
            UserProgramError::FailedCompilation,
        ),
{
    if invoked_ok && exit_zero {
        Ok(())
    } else {
        Err(UserProgramError::FailedCompilation)
    }
}

/// Decides an explicit stop request.  With no occupant it reports the
/// no-program condition; with an occupant the host kills that process, and
/// a kill that did not succeed is the failed-kill condition.  On success
/// the cleared occupant's identifier comes back.
pub fn stop_outcome(occupant: Option<u64>, kill_ok: bool) -> (r: Result<u64, UserProgramError>)
    ensures
        occupant is None ==> r == Err::<u64, UserProgramError>(UserProgramError::NoProgram),
        occupant is Some && kill_ok ==> r == Ok::<u64, UserProgramError>(occupant->0),
        occupant is Some && !kill_ok ==> r == Err::<u64, UserProgramError>(
            UserProgramError::FailedKill,
        ),
{
    match occupant {
        None => Err(UserProgramError::NoProgram),
        Some(id) => {
            if kill_ok {
                Ok(id)
            } else {
                Err(UserProgramError::FailedKill)
            }
        },
    }
}

/// What the host observed while awaiting a spawned program's exit.
pub enum ExitEvent {
    /// The process exited; its captured output streams.
    Exited { stdout: Vec<u8>, stderr: Vec<u8> },
    /// The run's cancellation token fired while the exit was being awaited;
    /// the await unwound without the process having necessarily exited.
    Cancelled,
    /// The execution time bound elapsed first.
    TimedOut,
}

/// The verdict of the await-exit step.  A cancelled await reports the
/// absence of output as the runner's no-output condition — promptly, since
/// nothing here waits — and a timeout is a failure, never a partial result.
pub fn await_exit_outcome(ev: ExitEvent) -> (r: Result<(Vec<u8>, Vec<u8>), UserProgramError>)
    ensures
        match ev {
            ExitEvent::Exited { stdout, stderr } => r matches Ok(p) && p.0@ == stdout@ && p.1@
                == stderr@,
            ExitEvent::Cancelled => r == Err::<(Vec<u8>, Vec<u8>), UserProgramError>(
                UserProgramError::NoOutput,
            ),
            ExitEvent::TimedOut => r == Err::<(Vec<u8>, Vec<u8>), UserProgramError>(
                UserProgramError::FailedRun,
            ),
        },
{
    match ev {
        ExitEvent::Exited { stdout, stderr } => Ok((stdout, stderr)),
        ExitEvent::Cancelled => Err(UserProgramError::NoOutput),
        ExitEvent::TimedOut => Err(UserProgramError::FailedRun),
    }
}

/// The final payload of a completed non-interactive run: the compiler's
/// captured output first, then the program's, in stream order.
pub fn combine_outputs(
    comp_stderr: &Vec<u8>,
    comp_stdout: &Vec<u8>,
    run_stdout: &Vec<u8>,
    run_stderr: &Vec<u8>,
) -> (r: Vec<u8>)
    ensures
        r@ == comp_stderr@ + comp_stdout@ + run_stdout@ + run_stderr@,
{
    let mut r: Vec<u8> = Vec::new();
    r.extend_from_slice(comp_stderr.as_slice());
    r.extend_from_slice(comp_stdout.as_slice());
    r.extend_from_slice(run_stdout.as_slice());
    r.extend_from_slice(run_stderr.as_slice());
    proof {
        assert(r@ =~= comp_stderr@ + comp_stdout@ + run_stdout@ + run_stderr@);
    }
    r
}

/// The verdict of the non-interactive execution path once its bounded wait
/// resolves: a clean exit delivers the combined compiler-then-program
/// output; exceeding the bound is the timeout condition.
pub fn run_file_outcome(comp_stderr: &Vec<u8>, comp_stdout: &Vec<u8>, ev: ExitEvent) -> (r: Result<
    Vec<u8>,
    FileSyncError,
>)
    ensures
        match ev {
            ExitEvent::Exited { stdout, stderr } => r matches Ok(o) && o@ == comp_stderr@
                + comp_stdout@ + stdout@ + stderr@,
            ExitEvent::TimedOut => r matches Err(e) && e is Timeout,
            ExitEvent::Cancelled => r matches Err(e) && (e matches FileSyncError::InternalError {
                cause,
            } && cause@ == "failed to run user code"@),
        },
{
    match ev {
        ExitEvent::Exited { stdout, stderr } => Ok(
            combine_outputs(comp_stderr, comp_stdout, &stdout, &stderr),
        ),
        ExitEvent::TimedOut => Err(FileSyncError::Timeout),
        ExitEvent::Cancelled => Err(
            FileSyncError::InternalError { cause: String::from_str("failed to run user code") },
        ),
    }
}

/// One line of transport input handed to the running program: the text with
/// a newline appended, as the program reads line-delimited input.
pub fn program_stdin_line(text: &str) -> (r: String)
    ensures
        r@ == text@ + "\n"@,
{
    let mut r = String::from_str(text);
    r.append("\n");
    r
}

/// The cap on buffered program input, in bytes.
pub const MAX_INPUT_SIZE: usize = 262144;

/// Whether one more chunk still fits under the input cap.
pub fn input_fits(current: usize, chunk: usize) -> (r: bool)
    ensures
        r == (current + chunk <= MAX_INPUT_SIZE),
{
    if chunk > MAX_INPUT_SIZE {
        false
    } else {
        current <= MAX_INPUT_SIZE - chunk
    }
}

/// The segments of `s` between newline characters, in order: splitting on
/// `'\n'` with empty segments kept, so the empty text has one empty
/// segment.
pub open spec fn split_newlines(s: Seq<char>) -> Seq<Seq<char>>
    decreases s.len(),
{
    if s.len() == 0 {
        seq![Seq::<char>::empty()]
    } else if s[0] == '\n' {
        seq![Seq::<char>::empty()] + split_newlines(s.skip(1))
    } else {
        let rest = split_newlines(s.skip(1));
        seq![seq![s[0]] + rest[0]] + rest.skip(1)
    }
}

/// A split always yields at least one segment.
pub proof fn lemma_split_newlines_nonempty(s: Seq<char>)
    ensures
        split_newlines(s).len() >= 1,
    decreases s.len(),
{
    if s.len() > 0 {
        lemma_split_newlines_nonempty(s.skip(1));
    }
}

/// Peeling one newline-free segment off the front of a split: if the first
/// `k` characters hold no newline, the split starts with exactly them.
proof fn lemma_split_segment(s: Seq<char>, k: int)
    requires
        0 <= k <= s.len(),
        forall|j: int| 0 <= j < k ==> s[j] != '\n',
        k < s.len() ==> s[k] == '\n',
    ensures
        k == s.len() ==> split_newlines(s) =~= seq![s],
        k < s.len() ==> split_newlines(s) =~= seq![s.take(k)] + split_newlines(s.skip(k + 1)),
    decreases k,
{
    if k == 0 {
        if s.len() == 0 {
            assert(s =~= Seq::<char>::empty());
        } else {
            assert(s.take(0) =~= Seq::<char>::empty());
        }
    } else {
        let s1 = s.skip(1);
        lemma_split_newlines_nonempty(s1);
        assert forall|j: int| 0 <= j < k - 1 implies s1[j] != '\n' by {
            assert(s1[j] == s[j + 1]);
        }
        if k - 1 < s1.len() {
            assert(s1[k - 1] == s[k]);
        }
        lemma_split_segment(s1, k - 1);
        let rest = split_newlines(s1);
        if k == s.len() {
            assert(rest =~= seq![s1]);
            assert(seq![s[0]] + rest[0] =~= s);
            assert(split_newlines(s) =~= seq![s]);
        } else {
            assert(rest[0] == s1.take(k - 1));
            assert(seq![s[0]] + s1.take(k - 1) =~= s.take(k));
            assert(rest.skip(1) =~= split_newlines(s1.skip(k)));
            assert(s1.skip(k) =~= s.skip(k + 1));
            assert(split_newlines(s) =~= seq![s.take(k)] + split_newlines(s.skip(k + 1)));
        }
    }
}

/// Splits staged input into its newline-delimited lines, in order, empty
/// lines kept.
pub fn split_lines(text: &str) -> (r: Vec<String>)
    ensures
        r.deep_view() == split_newlines(text@),
{
    let n = text.unicode_len();
    let mut out: Vec<String> = Vec::new();
    let mut start: usize = 0;
    let mut i: usize = 0;
    proof {
        assert(text@.skip(0) =~= text@);
    }
    while i < n
        invariant
            start <= i <= n,
            n == text@.len(),
            forall|j: int| start <= j < i ==> text@[j] != '\n',
            out.deep_view() + split_newlines(text@.skip(start as int)) =~= split_newlines(text@),
        decreases n - i,
    {
        let c = text.get_char(i);
        if c == '\n' {
            let seg = String::from_str(text.substring_char(start, i));
            let ghost before = out.deep_view();
            out.push(seg);
            proof {
                assert(out.deep_view() =~= before.push(seg@));
                let s1 = text@.skip(start as int);
                assert forall|j: int| 0 <= j < i - start implies s1[j] != '\n' by {
                    assert(s1[j] == text@[start + j]);
                }
                assert(s1[i - start] == text@[i as int]);
                lemma_split_segment(s1, i - start);
                assert(s1.take(i - start) =~= text@.subrange(start as int, i as int));
                assert(s1.skip(i - start + 1) =~= text@.skip(i + 1));
                assert(before.push(seg@) + split_newlines(text@.skip(i + 1)) =~= before + (seq![
                    seg@,
                ] + split_newlines(text@.skip(i + 1))));
            }
            start = i + 1;
        }
        i = i + 1;
    }
    let seg = String::from_str(text.substring_char(start, n));
    let ghost before = out.deep_view();
    out.push(seg);
    proof {
        assert(out.deep_view() =~= before.push(seg@));
        let s1 = text@.skip(start as int);
        assert forall|j: int| 0 <= j < s1.len() implies s1[j] != '\n' by {
            assert(s1[j] == text@[start + j]);
        }
        lemma_split_segment(s1, s1.len() as int);
        assert(s1 =~= text@.subrange(start as int, n as int));
        assert(before.push(seg@) =~= before + seq![seg@]);
    }
    out
}

} // verus!
