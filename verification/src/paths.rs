//! The Path Containment Validator: every caller-supplied file path must
//! resolve to a location inside the workspace root.
//!
//! Paths are byte strings, as the operating system sees them. Resolution
//! (following symlinks and collapsing `..` against the real directory tree)
//! needs the filesystem and is performed by the surrounding binary; its
//! result is handed in as a plain value, and the decisions about it are made
//! and proved here.

use vstd::prelude::*;

use crate::ErrorKind;
use crate::SandboxError;

verus! {

/// The path separator byte, `/`.
pub const SEP: u8 = 47;

pub open spec fn contains_byte(s: Seq<u8>, b: u8) -> bool {
    exists|i: int| 0 <= i < s.len() && s[i] == b
}

/// An absolute path: one that starts at the filesystem root.
pub open spec fn is_absolute(s: Seq<u8>) -> bool {
    s.len() > 0 && s[0] == SEP
}

/// Component-wise containment of a resolved path `p` in a resolved root:
/// `p` is the root itself, or the root followed by a separator and more.
/// The root's own trailing separator (the filesystem root directory is the
/// one canonical path that ends in one) is accounted for.
pub open spec fn within_root(root: Seq<u8>, p: Seq<u8>) -> bool {
    ||| p == root
    ||| (p.len() > root.len() && p.subrange(0, root.len() as int) == root && (
        (root.len() > 0 && root[root.len() - 1] == SEP) || p[root.len() as int] == SEP
    ))
}

fn bytes_contain(s: &Vec<u8>, b: u8) -> (r: bool)
    ensures
        r == contains_byte(s@, b),
{
    let mut i: usize = 0;
    while i < s.len()
        invariant
            0 <= i <= s@.len(),
            forall|k: int| 0 <= k < i ==> s@[k] != b,
        decreases s@.len() - i,
    {
        if s[i] == b {
            return true;
        }
        i = i + 1;
    }
    false
}

fn check_within_root(root: &Vec<u8>, p: &Vec<u8>) -> (r: bool)
    ensures
        r == within_root(root@, p@),
{
    let n = root.len();
    if p.len() < n {
        assert(!within_root(root@, p@));
        return false;
    }
    let mut i: usize = 0;
    while i < n
        invariant
            0 <= i <= n,
            n == root@.len(),
            n <= p@.len(),
            forall|k: int| 0 <= k < i ==> root@[k] == p@[k],
        decreases n - i,
    {
        if root[i] != p[i] {
            assert(p@.subrange(0, n as int)[i as int] != root@[i as int]);
            assert(p@ != root@) by {
                assert(p@.len() == root@.len() ==> p@[i as int] != root@[i as int]);
            }
            return false;
        }
        i = i + 1;
    }
    if p.len() == n {
        assert(p@ =~= root@);
        return true;
    }
    // p strictly extends the root byte-wise; the extension must begin at a
    // component boundary.
    assert(p@.subrange(0, n as int) =~= root@);
    if n > 0 && root[n - 1] == SEP {
        return true;
    }
    p[n] == SEP
}

/// Accepts or rejects the host's attempt at resolving the workspace root:
/// `resolved` is the canonical form the filesystem reported (absent when the
/// path could not be resolved at all), `is_dir` whether it names a
/// directory. Relies on nothing but those two observations.
pub fn canonicalize_root(resolved: Option<Vec<u8>>, is_dir: bool) -> (r: Result<
    Vec<u8>,
    SandboxError,
>)
    ensures
        resolved is None ==> (r matches Err(e) && e.kind == ErrorKind::InvalidRoot
            && e.message@ == "failed to canonicalize root"@),
        resolved is Some && !is_dir ==> (r matches Err(e) && e.kind == ErrorKind::InvalidRoot
            && e.message@ == "root is not a directory"@),
        resolved is Some && is_dir ==> (r matches Ok(p) && p == resolved->Some_0),
        r matches Ok(p) ==> resolved == Some(p) && is_dir,
{
    match resolved {
        None => Err(
            SandboxError::new(ErrorKind::InvalidRoot, "failed to canonicalize root".to_owned()),
        ),
        Some(c) => {
            if is_dir {
                Ok(c)
            } else {
                Err(SandboxError::new(ErrorKind::InvalidRoot, "root is not a directory".to_owned()))
            }
        },
    }
}

/// Validates one caller-supplied path against the workspace root.
///
/// `root` is the canonical root; `rel` the caller's path as given;
/// `resolved` the canonical form of `root` joined with `rel` as the
/// filesystem reported it (absent when resolution failed, for example
/// because the target does not exist).
///
/// The checks, in order: no embedded null byte, not absolute, resolvable,
/// and the resolved path lies within the root component-wise. Every `Ok`
/// result is the resolved path and is contained in the root.
pub fn ensure_within_root(root: &Vec<u8>, rel: &Vec<u8>, resolved: Option<Vec<u8>>) -> (r: Result<
    Vec<u8>,
    SandboxError,
>)
    ensures
        contains_byte(rel@, 0) ==> (r matches Err(e) && e.kind == ErrorKind::UnsafePath
            && e.message@ == "invalid path"@),
        !contains_byte(rel@, 0) && is_absolute(rel@) ==> (r matches Err(e) && e.kind
            == ErrorKind::UnsafePath && e.message@ == "absolute paths are not allowed"@),
        !contains_byte(rel@, 0) && !is_absolute(rel@) && resolved is None ==> (r matches Err(e)
            && e.kind == ErrorKind::UnsafePath && e.message@ == "failed to canonicalize path"@),
        !contains_byte(rel@, 0) && !is_absolute(rel@) && resolved is Some && !within_root(
            root@,
            resolved->Some_0@,
        ) ==> (r matches Err(e) && e.kind == ErrorKind::UnsafePath && e.message@
            == "path escapes root"@),
        !contains_byte(rel@, 0) && !is_absolute(rel@) && resolved is Some && within_root(
            root@,
            resolved->Some_0@,
        ) ==> (r matches Ok(p) && p == resolved->Some_0),
        r matches Ok(p) ==> within_root(root@, p@) && resolved == Some(p) && !contains_byte(rel@, 0)
            && !is_absolute(rel@),
{
    if bytes_contain(rel, 0) {
        return Err(SandboxError::new(ErrorKind::UnsafePath, "invalid path".to_owned()));
    }
    if rel.len() > 0 && rel[0] == SEP {
        return Err(
            SandboxError::new(ErrorKind::UnsafePath, "absolute paths are not allowed".to_owned()),
        );
    }
    match resolved {
        None => Err(
            SandboxError::new(ErrorKind::UnsafePath, "failed to canonicalize path".to_owned()),
        ),
        Some(c) => {
            if check_within_root(root, &c) {
                Ok(c)
            } else {
                Err(SandboxError::new(ErrorKind::UnsafePath, "path escapes root".to_owned()))
            }
        },
    }
}

} // verus!
