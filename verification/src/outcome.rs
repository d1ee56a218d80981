//! The Result Model: the uniform outcome record produced by every operation,
//! and the constructors that every operation funnels through.

use vstd::prelude::*;

verus! {

/// The uniform result of one operation: a success flag, the exit code,
/// elapsed wall-clock time in milliseconds, the captured output streams,
/// the termination flags and the invocation that was run.
///
/// `command` is empty exactly when the engine itself failed before (or
/// instead of) running a child process.
#[derive(Clone, PartialEq, Debug)]
pub struct Outcome {
    pub ok: bool,
    pub exit_code: i32,
    pub duration_ms: u64,
    pub stdout: String,
    pub stderr: String,
    pub timed_out: bool,
    pub killed: bool,
    pub command: Vec<String>,
}

impl Outcome {
    /// Record invariant: `ok` holds only for a zero exit code with no
    /// timeout, and a kill only ever happens as the consequence of a
    /// timeout.
    pub open spec fn wf(self) -> bool {
        &&& self.ok ==> self.exit_code == 0 && !self.timed_out
        &&& self.killed ==> self.timed_out
    }
}

/// The sentinel record for an engine-level failure: not successful, exit
/// code one, zero duration, empty stdout, the error message as stderr, no
/// timeout, no kill, and an empty command.
pub open spec fn is_failure_outcome(o: Outcome, message: Seq<char>) -> bool {
    &&& !o.ok
    &&& o.exit_code == 1
    &&& o.duration_ms == 0
    &&& o.stdout@.len() == 0
    &&& o.stderr@ == message
    &&& !o.timed_out
    &&& !o.killed
    &&& o.command@.len() == 0
}

/// Converts an engine-level error message into the sentinel outcome record,
/// so that the caller always receives a well-formed record even when the
/// engine failed before any child process ran.
pub fn failure_outcome(message: String) -> (o: Outcome)
    ensures
        is_failure_outcome(o, message@),
        o.wf(),
{
    Outcome {
        ok: false,
        exit_code: 1,
        duration_ms: 0,
        stdout: String::new(),
        stderr: message,
        timed_out: false,
        killed: false,
        command: Vec::new(),
    }
}

/// The record reported for a successful file read: the file's text is the
/// captured stdout and the command field carries a synthetic label.
pub open spec fn is_read_file_outcome(o: Outcome, path: Seq<char>, contents: Seq<char>) -> bool {
    &&& o.ok
    &&& o.exit_code == 0
    &&& o.duration_ms == 0
    &&& o.stdout@ == contents
    &&& o.stderr@.len() == 0
    &&& !o.timed_out
    &&& !o.killed
    &&& o.command@.len() == 2
    &&& o.command@[0]@ == "read-file"@
    &&& o.command@[1]@ == path
}

/// Builds the outcome of the read operation from the validated path's
/// display form and the text that was read.
pub fn read_file_outcome(path: String, contents: String) -> (o: Outcome)
    ensures
        is_read_file_outcome(o, path@, contents@),
        o.stdout == contents,
        o.command@[1] == path,
        o.wf(),
{
    let mut command: Vec<String> = Vec::new();
    command.push("read-file".to_owned());
    command.push(path);
    Outcome {
        ok: true,
        exit_code: 0,
        duration_ms: 0,
        stdout: contents,
        stderr: String::new(),
        timed_out: false,
        killed: false,
        command,
    }
}

/// The read outcome is a function of the path and of the text read alone:
/// two reads that saw the same bytes report records that agree in every
/// field. This is the idempotence of the read operation, up to external
/// mutation of the file between the two reads.
pub proof fn lemma_read_outcome_deterministic(
    o1: Outcome,
    o2: Outcome,
    path: Seq<char>,
    contents: Seq<char>,
)
    requires
        is_read_file_outcome(o1, path, contents),
        is_read_file_outcome(o2, path, contents),
    ensures
        o1.stdout@ == o2.stdout@,
        o1.ok == o2.ok,
        o1.exit_code == o2.exit_code,
        o1.duration_ms == o2.duration_ms,
        o1.stderr@ =~= o2.stderr@,
        o1.timed_out == o2.timed_out,
        o1.killed == o2.killed,
        o1.command@.len() == o2.command@.len(),
        forall|i: int| 0 <= i < o1.command@.len() ==> o1.command@[i]@ == o2.command@[i]@,
{
    assert forall|i: int| 0 <= i < o1.command@.len() implies o1.command@[i]@ == o2.command@[i]@ by {
        if i == 0 {
        } else {
            assert(i == 1);
        }
    }
}

/// Builds the outcome of one completed process execution from what the host
/// reported: the exit code if the platform gave one, whether the exit status
/// counts as success, and the termination flags set by the deadline loop.
///
/// The exit code defaults to zero for a success without a numeric code and
/// to one for a failure without one (for example, a process terminated by a
/// signal).
pub fn exec_outcome(
    command: Vec<String>,
    exit_code: Option<i32>,
    status_success: bool,
    duration_ms: u64,
    stdout: String,
    stderr: String,
    timed_out: bool,
    killed: bool,
) -> (o: Outcome)
    requires
        killed ==> timed_out,
        status_success && exit_code is Some ==> exit_code == Some(0i32),
    ensures
        o.ok == (status_success && !timed_out),
        exit_code matches Some(c) ==> o.exit_code == c,
        exit_code is None ==> o.exit_code == (if status_success {
            0i32
        } else {
            1i32
        }),
        o.duration_ms == duration_ms,
        o.stdout == stdout,
        o.stderr == stderr,
        o.timed_out == timed_out,
        o.killed == killed,
        o.command == command,
        o.wf(),
{
    let code: i32 = match exit_code {
        Some(c) => c,
        None => if status_success {
            0
        } else {
            1
        },
    };
    Outcome {
        ok: status_success && !timed_out,
        exit_code: code,
        duration_ms,
        stdout,
        stderr,
        timed_out,
        killed,
        command,
    }
}

} // verus!
