use sandbox_runner::apply::apply_patch_after_fallback;
use sandbox_runner::apply::apply_patch_after_primary;
use sandbox_runner::apply::apply_patch_after_write;
use sandbox_runner::apply::apply_patch_start;
use sandbox_runner::apply::git_apply_invocation;
use sandbox_runner::apply::patch_file_name;
use sandbox_runner::apply::patch_tool_invocation;
use sandbox_runner::apply::ApplyStep;
use sandbox_runner::exec::check_invocation;
use sandbox_runner::exec::child_env_var;
use sandbox_runner::exec::default_timeout_ms;
use sandbox_runner::exec::poll_interval_ms;
use sandbox_runner::exec::poll_step;
use sandbox_runner::exec::termination_flags;
use sandbox_runner::exec::pytest_invocation;
use sandbox_runner::exec::resource_ceilings;
use sandbox_runner::exec::PollAction;
use sandbox_runner::exec::ResourceKind;
use sandbox_runner::outcome::exec_outcome;
use sandbox_runner::outcome::failure_outcome;
use sandbox_runner::outcome::read_file_outcome;
use sandbox_runner::paths::canonicalize_root;
use sandbox_runner::paths::ensure_within_root;
use sandbox_runner::patch::validate_patch_paths;
use sandbox_runner::ErrorKind;
use sandbox_runner::SandboxError;

fn b(s: &str) -> Vec<u8> {
    s.as_bytes().to_vec()
}

fn strings(v: &[&str]) -> Vec<String> {
    v.iter().map(|s| s.to_string()).collect()
}

#[test]
fn absolute_path_rejected() {
    let e = ensure_within_root(&b("/tmp/ws"), &b("/etc/passwd"), Some(b("/etc/passwd")))
        .unwrap_err();
    assert_eq!(e.kind, ErrorKind::UnsafePath);
    assert_eq!(e.message, "absolute paths are not allowed");
}

#[test]
fn absolute_path_under_root_still_rejected() {
    let e = ensure_within_root(&b("/tmp/ws"), &b("/tmp/ws/x"), Some(b("/tmp/ws/x"))).unwrap_err();
    assert_eq!(e.kind, ErrorKind::UnsafePath);
}

#[test]
fn nul_byte_rejected() {
    let e = ensure_within_root(&b("/tmp/ws"), &b("a\0b"), Some(b("/tmp/ws/a"))).unwrap_err();
    assert_eq!(e.kind, ErrorKind::UnsafePath);
    assert_eq!(e.message, "invalid path");
}

#[test]
fn traversal_outside_root_rejected() {
    let e = ensure_within_root(&b("/tmp/ws"), &b("../../etc/passwd"), Some(b("/etc/passwd")))
        .unwrap_err();
    assert_eq!(e.kind, ErrorKind::UnsafePath);
    assert_eq!(e.message, "path escapes root");
}

#[test]
fn traversal_resolving_inside_root_ok() {
    let p = ensure_within_root(&b("/tmp/ws"), &b("a/../b"), Some(b("/tmp/ws/b"))).unwrap();
    assert_eq!(p, b("/tmp/ws/b"));
}

#[test]
fn unresolvable_path_rejected() {
    let e = ensure_within_root(&b("/tmp/ws"), &b("missing.txt"), None).unwrap_err();
    assert_eq!(e.kind, ErrorKind::UnsafePath);
    assert_eq!(e.message, "failed to canonicalize path");
}

#[test]
fn sibling_with_root_as_string_prefix_rejected() {
    let e = ensure_within_root(&b("/tmp/ws"), &b("x"), Some(b("/tmp/wsx"))).unwrap_err();
    assert_eq!(e.kind, ErrorKind::UnsafePath);
    assert_eq!(e.message, "path escapes root");
}

#[test]
fn root_itself_is_within_root() {
    let p = ensure_within_root(&b("/tmp/ws"), &b("."), Some(b("/tmp/ws"))).unwrap();
    assert_eq!(p, b("/tmp/ws"));
}

#[test]
fn filesystem_root_as_workspace_root() {
    let p = ensure_within_root(&b("/"), &b("etc"), Some(b("/etc"))).unwrap();
    assert_eq!(p, b("/etc"));
}

#[test]
fn canonicalize_root_unresolvable() {
    let e = canonicalize_root(None, false).unwrap_err();
    assert_eq!(e.kind, ErrorKind::InvalidRoot);
    assert_eq!(e.message, "failed to canonicalize root");
}

#[test]
fn canonicalize_root_not_a_directory() {
    let e = canonicalize_root(Some(b("/tmp/file")), false).unwrap_err();
    assert_eq!(e.kind, ErrorKind::InvalidRoot);
    assert_eq!(e.message, "root is not a directory");
}

#[test]
fn canonicalize_root_ok() {
    let p = canonicalize_root(Some(b("/tmp/ws")), true).unwrap();
    assert_eq!(p, b("/tmp/ws"));
}

#[test]
fn scanner_accepts_plain_git_diff() {
    let patch = b("--- a/src/a.py\n+++ b/src/a.py\n@@ -1 +1 @@\n-x = 1\n+x = 2\n");
    assert!(validate_patch_paths(&patch).is_ok());
}

#[test]
fn scanner_rejects_absolute_header() {
    let e = validate_patch_paths(&b("--- /etc/passwd\n+++ b/x\n")).unwrap_err();
    assert_eq!(e.kind, ErrorKind::UnsafePatchPath);
    assert_eq!(e.message, "unsafe patch path in header");
}

#[test]
fn scanner_rejects_traversal_after_prefix() {
    let e = validate_patch_paths(&b("+++ b/../secret\n")).unwrap_err();
    assert_eq!(e.kind, ErrorKind::UnsafePatchPath);
}

#[test]
fn scanner_rejects_backslash_separator() {
    let e = validate_patch_paths(&b("--- dir\\file.txt\n")).unwrap_err();
    assert_eq!(e.kind, ErrorKind::UnsafePatchPath);
}

#[test]
fn scanner_rejects_dotdot_substring() {
    let e = validate_patch_paths(&b("--- a/x..y\n")).unwrap_err();
    assert_eq!(e.kind, ErrorKind::UnsafePatchPath);
}

#[test]
fn scanner_ignores_non_header_lines() {
    let patch = b("--- a/ok.txt\n+++ b/ok.txt\n@@ -1 +1 @@\n-..\n+..\n ..\n---..no-blank\n");
    assert!(validate_patch_paths(&patch).is_ok());
}

#[test]
fn scanner_keeps_bare_prefix_token_as_path() {
    // A header whose whole token is `a/` names that path itself; nothing
    // follows the prefix, so nothing is stripped and nothing is unsafe.
    assert!(validate_patch_paths(&b("--- a/\n")).is_ok());
}

#[test]
fn scanner_accepts_empty_patch() {
    assert!(validate_patch_paths(&b("")).is_ok());
}

#[test]
fn failure_outcome_is_sentinel() {
    let o = failure_outcome("path escapes root".to_string());
    assert!(!o.ok);
    assert_eq!(o.exit_code, 1);
    assert_eq!(o.duration_ms, 0);
    assert_eq!(o.stdout, "");
    assert_eq!(o.stderr, "path escapes root");
    assert!(!o.timed_out);
    assert!(!o.killed);
    assert!(o.command.is_empty());
}

#[test]
fn read_outcome_reports_contents_as_stdout() {
    let o = read_file_outcome("src/a.py".to_string(), "x = 1\n".to_string());
    assert!(o.ok);
    assert_eq!(o.exit_code, 0);
    assert_eq!(o.duration_ms, 0);
    assert_eq!(o.stdout, "x = 1\n");
    assert_eq!(o.stderr, "");
    assert_eq!(o.command, strings(&["read-file", "src/a.py"]));
}

#[test]
fn read_outcome_is_idempotent() {
    let o1 = read_file_outcome("f.txt".to_string(), "same text".to_string());
    let o2 = read_file_outcome("f.txt".to_string(), "same text".to_string());
    assert_eq!(o1.stdout, o2.stdout);
    assert_eq!(o1, o2);
}

#[test]
fn exec_outcome_success_before_deadline() {
    let o = exec_outcome(
        strings(&["true"]),
        Some(0),
        true,
        3,
        String::new(),
        String::new(),
        false,
        false,
    );
    assert!(o.ok);
    assert_eq!(o.exit_code, 0);
    assert!(!o.timed_out);
    assert!(!o.killed);
}

#[test]
fn exec_outcome_missing_code_defaults_by_status() {
    let o = exec_outcome(
        strings(&["cmd"]),
        None,
        true,
        1,
        String::new(),
        String::new(),
        false,
        false,
    );
    assert_eq!(o.exit_code, 0);
    assert!(o.ok);
}

#[test]
fn exec_outcome_nonzero_exit() {
    let o = exec_outcome(
        strings(&["false"]),
        Some(3),
        false,
        2,
        String::new(),
        String::new(),
        false,
        false,
    );
    assert!(!o.ok);
    assert_eq!(o.exit_code, 3);
}

#[test]
fn timeout_scenario_sleep_five_with_hundred_ms() {
    // A sleeping child reaches the deadline: the loop decides to kill, and
    // the record shows the timeout, the kill, the default exit code for a
    // signalled child, and a duration of about the deadline itself.
    assert_eq!(poll_step(100, 100, false), PollAction::Kill);
    let o = exec_outcome(
        strings(&["sleep", "5"]),
        None,
        false,
        100,
        String::new(),
        String::new(),
        true,
        true,
    );
    assert!(o.timed_out);
    assert!(o.killed);
    assert!(!o.ok);
    assert_eq!(o.exit_code, 1);
    assert_eq!(o.duration_ms, 100);
    assert_eq!(o.command, strings(&["sleep", "5"]));
}

#[test]
fn poll_step_decisions() {
    assert_eq!(poll_step(5, 100, false), PollAction::Sleep);
    assert_eq!(poll_step(5, 100, true), PollAction::Reap);
    assert_eq!(poll_step(100, 100, true), PollAction::Kill);
    assert_eq!(poll_step(150, 100, false), PollAction::Kill);
}

#[test]
fn termination_flags_follow_the_loop_exit() {
    assert_eq!(termination_flags(PollAction::Kill), (true, true));
    assert_eq!(termination_flags(PollAction::Reap), (false, false));
    assert_eq!(termination_flags(PollAction::Sleep), (false, false));
}

#[test]
fn executor_constants() {
    assert_eq!(poll_interval_ms(), 10);
    assert_eq!(default_timeout_ms(), 10000);
    let (k, v) = child_env_var();
    assert_eq!(k, "PYTHONUNBUFFERED");
    assert_eq!(v, "1");
}

#[test]
fn resource_ceilings_are_fixed() {
    let r = resource_ceilings();
    assert_eq!(r.len(), 3);
    assert_eq!(r[0].kind, ResourceKind::CpuSeconds);
    assert_eq!((r[0].soft, r[0].hard), (2, 2));
    assert_eq!(r[1].kind, ResourceKind::OpenFiles);
    assert_eq!((r[1].soft, r[1].hard), (256, 256));
    assert_eq!(r[2].kind, ResourceKind::AddressSpaceBytes);
    assert_eq!((r[2].soft, r[2].hard), (512 * 1024 * 1024, 512 * 1024 * 1024));
}

#[test]
fn empty_invocation_rejected() {
    let e = check_invocation(&Vec::new()).unwrap_err();
    assert_eq!(e.kind, ErrorKind::SpawnFailure);
    assert_eq!(e.message, "missing command argv");
    assert!(check_invocation(&strings(&["ls"])).is_ok());
}

#[test]
fn pytest_invocation_is_fixed() {
    assert_eq!(pytest_invocation(), strings(&["python", "-m", "pytest", "-q"]));
}

#[test]
fn apply_scenario_primary_succeeds() {
    // root /tmp/ws, a diff touching src/a.py through a/ and b/ headers: the
    // scanner passes it, the patch is written under the reserved name, the
    // primary tool is invoked on that name, and its successful outcome is
    // the final report.
    let patch = b("--- a/src/a.py\n+++ b/src/a.py\n@@ -1 +1 @@\n-x = 1\n+x = 2\n");
    assert_eq!(apply_patch_start(&patch), ApplyStep::WritePatch);
    assert_eq!(patch_file_name(), ".tu_agent_patch.diff");
    let step = apply_patch_after_write(true);
    let primary = match step {
        ApplyStep::RunPrimary(cmd) => cmd,
        other => panic!("expected the primary tool, got {:?}", other),
    };
    assert_eq!(
        primary,
        strings(&["git", "apply", "--unsafe-paths", "--whitespace=nowarn", ".tu_agent_patch.diff"])
    );
    let o = exec_outcome(primary, Some(0), true, 12, String::new(), String::new(), false, false);
    assert!(o.ok);
    let finish = apply_patch_after_primary(Ok(o.clone()));
    assert_eq!(finish, ApplyStep::Finish(o));
}

#[test]
fn apply_rejects_unsafe_patch_before_any_write() {
    let step = apply_patch_start(&b("--- /etc/passwd\n"));
    match step {
        ApplyStep::Fail(e) => {
            assert_eq!(e.kind, ErrorKind::UnsafePatchPath);
            assert_eq!(e.message, "unsafe patch path in header");
        },
        other => panic!("expected a terminal failure, got {:?}", other),
    }
}

#[test]
fn apply_write_failure_is_terminal() {
    match apply_patch_after_write(false) {
        ApplyStep::Fail(e) => assert_eq!(e.kind, ErrorKind::IoFailure),
        other => panic!("expected a terminal failure, got {:?}", other),
    }
}

#[test]
fn apply_falls_back_when_primary_fails() {
    let failed = exec_outcome(
        strings(&["git", "apply"]),
        Some(1),
        false,
        7,
        String::new(),
        "error".to_string(),
        false,
        false,
    );
    let expected = strings(&["patch", "-p1", "-i", ".tu_agent_patch.diff"]);
    assert_eq!(apply_patch_after_primary(Ok(failed)), ApplyStep::RunFallback(expected.clone()));
    let spawn_err = SandboxError::new(ErrorKind::SpawnFailure, "failed to spawn".to_string());
    assert_eq!(apply_patch_after_primary(Err(spawn_err)), ApplyStep::RunFallback(expected));
    assert_eq!(patch_tool_invocation(), strings(&["patch", "-p1", "-i", ".tu_agent_patch.diff"]));
    assert_eq!(
        git_apply_invocation(),
        strings(&["git", "apply", "--unsafe-paths", "--whitespace=nowarn", ".tu_agent_patch.diff"])
    );
}

#[test]
fn apply_fallback_outcome_is_final() {
    let o = exec_outcome(
        strings(&["patch", "-p1"]),
        Some(0),
        true,
        9,
        "patched".to_string(),
        String::new(),
        false,
        false,
    );
    assert_eq!(apply_patch_after_fallback(Ok(o.clone())), ApplyStep::Finish(o));
}

#[test]
fn apply_fallback_spawn_failure_becomes_sentinel() {
    let e = SandboxError::new(ErrorKind::SpawnFailure, "failed to spawn: patch".to_string());
    match apply_patch_after_fallback(Err(e)) {
        ApplyStep::Finish(o) => {
            assert!(!o.ok);
            assert_eq!(o.exit_code, 1);
            assert_eq!(o.stderr, "failed to spawn: patch");
            assert!(o.command.is_empty());
        },
        other => panic!("expected a finish step, got {:?}", other),
    }
}
