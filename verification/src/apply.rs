//! The Patch Applier: an ordered chain of apply strategies around the
//! Process Executor, with the containment guarantee of the header scanner.
//!
//! The applier is a small state machine. Each step names the one piece of
//! outside work the host must do next (write the patch file, run an apply
//! tool, clean up and report); the host performs it and hands the observed
//! result to the next decision. The scanner's verdict comes first, so a
//! rejected patch terminates the machine before any write step is ever
//! issued.

use vstd::prelude::*;

use crate::outcome::failure_outcome;
use crate::outcome::is_failure_outcome;
use crate::outcome::Outcome;
use crate::patch::has_unsafe_header;
use crate::patch::validate_patch_paths;
use crate::ErrorKind;
use crate::SandboxError;

verus! {

/// The reserved name, inside the root, under which an incoming diff is
/// persisted for the apply tools; chosen to avoid colliding with legitimate
/// workspace files.
pub fn patch_file_name() -> (r: String)
    ensures
        r@ == ".tu_agent_patch.diff"@,
{
    ".tu_agent_patch.diff".to_owned()
}

/// The primary strategy: apply the reserved file, tolerating path-escaping
/// header quirks and whitespace-only conflicts.
pub open spec fn is_git_apply_invocation(c: Seq<String>) -> bool {
    &&& c.len() == 5
    &&& c[0]@ == "git"@
    &&& c[1]@ == "apply"@
    &&& c[2]@ == "--unsafe-paths"@
    &&& c[3]@ == "--whitespace=nowarn"@
    &&& c[4]@ == ".tu_agent_patch.diff"@
}

/// The fallback strategy: apply the reserved file as a strict unified diff
/// with one leading path component stripped.
pub open spec fn is_patch_tool_invocation(c: Seq<String>) -> bool {
    &&& c.len() == 4
    &&& c[0]@ == "patch"@
    &&& c[1]@ == "-p1"@
    &&& c[2]@ == "-i"@
    &&& c[3]@ == ".tu_agent_patch.diff"@
}

pub fn git_apply_invocation() -> (r: Vec<String>)
    ensures
        is_git_apply_invocation(r@),
{
    let mut r: Vec<String> = Vec::new();
    r.push("git".to_owned());
    r.push("apply".to_owned());
    r.push("--unsafe-paths".to_owned());
    r.push("--whitespace=nowarn".to_owned());
    r.push(".tu_agent_patch.diff".to_owned());
    r
}

pub fn patch_tool_invocation() -> (r: Vec<String>)
    ensures
        is_patch_tool_invocation(r@),
{
    let mut r: Vec<String> = Vec::new();
    r.push("patch".to_owned());
    r.push("-p1".to_owned());
    r.push("-i".to_owned());
    r.push(".tu_agent_patch.diff".to_owned());
    r
}

/// What the host must do next while applying a patch.
#[derive(Clone, PartialEq, Debug)]
pub enum ApplyStep {
    /// Terminal: the engine failed (patch rejected, or the write failed);
    /// report the sentinel outcome for this error. Nothing was or will be
    /// written.
    Fail(SandboxError),
    /// Write the patch text to the reserved file inside the root, then
    /// report back whether the write succeeded.
    WritePatch,
    /// Run this invocation in the root, then report back its outcome (or
    /// the spawn error).
    RunPrimary(Vec<String>),
    /// The primary strategy did not succeed: run this invocation in the
    /// root, then report back its outcome (or the spawn error).
    RunFallback(Vec<String>),
    /// Terminal: delete the reserved file (best effort, failure ignored)
    /// and report this outcome.
    Finish(Outcome),
}

/// The scanner's verdict, taken before anything reaches the filesystem: a
/// patch with an unsafe header terminates the machine here, so no write
/// step is ever issued for it.
pub fn apply_patch_start(patch: &Vec<u8>) -> (s: ApplyStep)
    ensures
        has_unsafe_header(patch@) ==> (s matches ApplyStep::Fail(e) && e.kind
            == ErrorKind::UnsafePatchPath && e.message@ == "unsafe patch path in header"@),
        !has_unsafe_header(patch@) ==> s == ApplyStep::WritePatch,
{
    match validate_patch_paths(patch) {
        Ok(()) => ApplyStep::WritePatch,
        Err(e) => ApplyStep::Fail(e),
    }
}

/// After the host tried to persist the validated patch: a failed write is
/// an engine-level failure, a successful one moves on to the primary apply
/// tool.
pub fn apply_patch_after_write(write_ok: bool) -> (s: ApplyStep)
    ensures
        !write_ok ==> (s matches ApplyStep::Fail(e) && e.kind == ErrorKind::IoFailure && e.message@
            == "failed to write temp patch"@),
        write_ok ==> (s matches ApplyStep::RunPrimary(c) && is_git_apply_invocation(c@)),
{
    if write_ok {
        ApplyStep::RunPrimary(git_apply_invocation())
    } else {
        ApplyStep::Fail(SandboxError::new(ErrorKind::IoFailure, "failed to write temp patch".to_owned()))
    }
}

/// The primary strategy succeeded when it ran and its outcome is a success.
pub open spec fn primary_succeeded(primary: Result<Outcome, SandboxError>) -> bool {
    primary matches Ok(o) && o.ok
}

/// After the primary apply tool: keep its outcome when it succeeded,
/// otherwise — non-zero exit or spawn failure alike — try the fallback
/// strategy.
pub fn apply_patch_after_primary(primary: Result<Outcome, SandboxError>) -> (s: ApplyStep)
    ensures
        primary_succeeded(primary) ==> (s matches ApplyStep::Finish(o) && o == primary->Ok_0),
        !primary_succeeded(primary) ==> (s matches ApplyStep::RunFallback(c)
            && is_patch_tool_invocation(c@)),
{
    match primary {
        Ok(o) => {
            if o.ok {
                ApplyStep::Finish(o)
            } else {
                ApplyStep::RunFallback(patch_tool_invocation())
            }
        },
        Err(_) => ApplyStep::RunFallback(patch_tool_invocation()),
    }
}

/// After the fallback apply tool, the machine always finishes — and the
/// finish step is what deletes the reserved file, so the cleanup happens
/// whether the fallback ran, succeeded, failed, or could not be spawned.
/// A spawn failure is reported as the sentinel outcome.
pub fn apply_patch_after_fallback(fallback: Result<Outcome, SandboxError>) -> (s: ApplyStep)
    ensures
        fallback is Ok ==> (s matches ApplyStep::Finish(o) && o == fallback->Ok_0),
        fallback is Err ==> (s matches ApplyStep::Finish(o) && is_failure_outcome(
            o,
            fallback->Err_0.message@,
        )),
{
    match fallback {
        Ok(o) => ApplyStep::Finish(o),
        Err(e) => ApplyStep::Finish(failure_outcome(e.message)),
    }
}

} // verus!
