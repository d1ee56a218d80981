//! The Process Executor's decision logic: the deadline/polling rules, the
//! extra child environment, the best-effort resource ceilings, and the
//! convenience test-suite invocation.
//!
//! The host spawns the child, sleeps, kills and reaps; each time around its
//! polling loop it reports the elapsed time and the child's liveness here
//! and performs the action decided for it.

use vstd::prelude::*;

use crate::ErrorKind;
use crate::SandboxError;

verus! {

/// What the polling loop must do next.
#[derive(Clone, Copy, PartialEq, Eq, Structural, Debug)]
pub enum PollAction {
    /// The deadline has passed: terminate the child, record the timeout,
    /// and leave the loop.
    Kill,
    /// The child has exited on its own: leave the loop and collect its
    /// status and output.
    Reap,
    /// Neither: sleep one polling interval and ask again.
    Sleep,
}

/// Decides one round of the polling loop. The deadline is checked first, so
/// a child that exits exactly when the deadline passes is still recorded as
/// timed out.
pub fn poll_step(elapsed_ms: u64, timeout_ms: u64, has_exited: bool) -> (a: PollAction)
    ensures
        elapsed_ms >= timeout_ms ==> a == PollAction::Kill,
        elapsed_ms < timeout_ms && has_exited ==> a == PollAction::Reap,
        elapsed_ms < timeout_ms && !has_exited ==> a == PollAction::Sleep,
{
    if elapsed_ms >= timeout_ms {
        PollAction::Kill
    } else if has_exited {
        PollAction::Reap
    } else {
        PollAction::Sleep
    }
}

/// The termination flags to record once the polling loop has resolved: a
/// kill is recorded as a timeout together with a kill, any other loop exit
/// as a natural one.
pub fn termination_flags(a: PollAction) -> (r: (bool, bool))
    ensures
        a == PollAction::Kill ==> r == (true, true),
        a != PollAction::Kill ==> r == (false, false),
        r.1 ==> r.0,
{
    match a {
        PollAction::Kill => (true, true),
        PollAction::Reap => (false, false),
        PollAction::Sleep => (false, false),
    }
}

/// The polling interval: the granularity with which the deadline is
/// observed.
pub fn poll_interval_ms() -> (r: u64)
    ensures
        r == 10,
{
    10
}

/// The default wall-clock deadline.
pub fn default_timeout_ms() -> (r: u64)
    ensures
        r == 10000,
{
    10000
}

/// The one variable added to the child's (otherwise inherited) environment,
/// to encourage unbuffered output from interpreted children.
pub fn child_env_var() -> (r: (String, String))
    ensures
        r.0@ == "PYTHONUNBUFFERED"@,
        r.1@ == "1"@,
{
    ("PYTHONUNBUFFERED".to_owned(), "1".to_owned())
}

/// The resources a ceiling can be asked for.
#[derive(Clone, Copy, PartialEq, Eq, Structural, Debug)]
pub enum ResourceKind {
    CpuSeconds,
    OpenFiles,
    AddressSpaceBytes,
}

/// One best-effort ceiling: applied to the child before its program image
/// loads, and silently skipped when the host refuses it.
#[derive(Clone, Copy, PartialEq, Eq, Structural, Debug)]
pub struct ResourceCeiling {
    pub kind: ResourceKind,
    pub soft: u64,
    pub hard: u64,
}

/// The ceilings requested for every child: a few CPU seconds, a few hundred
/// open files, and half a gigabyte of address space, soft and hard alike.
pub fn resource_ceilings() -> (r: Vec<ResourceCeiling>)
    ensures
        r@.len() == 3,
        r@[0] == (ResourceCeiling { kind: ResourceKind::CpuSeconds, soft: 2, hard: 2 }),
        r@[1] == (ResourceCeiling { kind: ResourceKind::OpenFiles, soft: 256, hard: 256 }),
        r@[2] == (ResourceCeiling {
            kind: ResourceKind::AddressSpaceBytes,
            soft: 536870912,
            hard: 536870912,
        }),
{
    let mut r: Vec<ResourceCeiling> = Vec::new();
    r.push(ResourceCeiling { kind: ResourceKind::CpuSeconds, soft: 2, hard: 2 });
    r.push(ResourceCeiling { kind: ResourceKind::OpenFiles, soft: 256, hard: 256 });
    r.push(
        ResourceCeiling { kind: ResourceKind::AddressSpaceBytes, soft: 536870912, hard: 536870912 },
    );
    r
}

/// Rejects an empty invocation: there is nothing to spawn.
pub fn check_invocation(argv: &Vec<String>) -> (r: Result<(), SandboxError>)
    ensures
        r is Ok <==> argv@.len() > 0,
        r matches Err(e) ==> e.kind == ErrorKind::SpawnFailure && e.message@
            == "missing command argv"@,
{
    if argv.len() == 0 {
        Err(SandboxError::new(ErrorKind::SpawnFailure, "missing command argv".to_owned()))
    } else {
        Ok(())
    }
}

/// The fixed convenience invocation that runs the workspace's test suite
/// through the interpreter's module-run mechanism, quietly.
pub fn pytest_invocation() -> (r: Vec<String>)
    ensures
        r@.len() == 4,
        r@[0]@ == "python"@,
        r@[1]@ == "-m"@,
        r@[2]@ == "pytest"@,
        r@[3]@ == "-q"@,
{
    let mut r: Vec<String> = Vec::new();
    r.push("python".to_owned());
    r.push("-m".to_owned());
    r.push("pytest".to_owned());
    r.push("-q".to_owned());
    r
}

} // verus!
