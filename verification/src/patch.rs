//! The Patch Header Scanner: inspects a unified-diff text for per-file path
//! headers and rejects any that are absolute, contain traversal, or use
//! foreign path separators — before the diff ever touches the filesystem.
//!
//! A header line is one that begins with `---` or `+++`, then at least one
//! blank character, then a path token (its maximal run of non-blank bytes),
//! with an optional two-byte `a/` or `b/` tool prefix stripped when something
//! follows it. All other lines — hunk markers, context, the patch body — are
//! ignored.

use vstd::prelude::*;

use crate::paths::contains_byte;
use crate::ErrorKind;
use crate::SandboxError;

verus! {

/// Line feed, the line terminator.
pub const LF: u8 = 10;

/// `-`, the removed-file header marker byte.
pub const DASH: u8 = 45;

/// `+`, the added-file header marker byte.
pub const PLUS: u8 = 43;

/// `.`, half of a traversal sequence.
pub const DOT: u8 = 46;

/// `/`, the path separator.
pub const SLASH: u8 = 47;

/// `\`, the foreign path separator.
pub const BACKSLASH: u8 = 92;

/// `a`, the first conventional tool prefix letter.
pub const LOWER_A: u8 = 97;

/// `b`, the second conventional tool prefix letter.
pub const LOWER_B: u8 = 98;

/// Blank bytes that may separate the header marker from the path token:
/// space, tab, carriage return, vertical tab, form feed.
pub open spec fn is_blank(b: u8) -> bool {
    b == 32 || b == 9 || b == 13 || b == 11 || b == 12
}

/// The end of the run of blank bytes that starts at `i`.
pub open spec fn skip_blank(line: Seq<u8>, i: int) -> int
    decreases line.len() - i,
{
    if 0 <= i < line.len() && is_blank(line[i]) {
        skip_blank(line, i + 1)
    } else {
        i
    }
}

/// The end of the run of non-blank bytes that starts at `i`.
pub open spec fn skip_token(line: Seq<u8>, i: int) -> int
    decreases line.len() - i,
{
    if 0 <= i < line.len() && !is_blank(line[i]) {
        skip_token(line, i + 1)
    } else {
        i
    }
}

proof fn lemma_skip_blank(line: Seq<u8>, i: int)
    requires
        0 <= i <= line.len(),
    ensures
        i <= skip_blank(line, i) <= line.len(),
        forall|k: int| i <= k < skip_blank(line, i) ==> is_blank(line[k]),
        skip_blank(line, i) == line.len() || !is_blank(line[skip_blank(line, i)]),
    decreases line.len() - i,
{
    if i < line.len() && is_blank(line[i]) {
        lemma_skip_blank(line, i + 1);
    }
}

proof fn lemma_skip_token(line: Seq<u8>, i: int)
    requires
        0 <= i <= line.len(),
    ensures
        i <= skip_token(line, i) <= line.len(),
        forall|k: int| i <= k < skip_token(line, i) ==> !is_blank(line[k]),
        skip_token(line, i) == line.len() || is_blank(line[skip_token(line, i)]),
    decreases line.len() - i,
{
    if i < line.len() && !is_blank(line[i]) {
        lemma_skip_token(line, i + 1);
    }
}

/// A line that opens with one of the two header markers.
pub open spec fn is_marker(line: Seq<u8>) -> bool {
    line.len() >= 3 && ((line[0] == DASH && line[1] == DASH && line[2] == DASH) || (line[0] == PLUS
        && line[1] == PLUS && line[2] == PLUS))
}

/// The path token of a header line: present when the marker is followed by
/// at least one blank byte and then at least one non-blank byte.
pub open spec fn header_token(line: Seq<u8>) -> Option<Seq<u8>> {
    if is_marker(line) {
        let j = skip_blank(line, 3);
        let k = skip_token(line, j);
        if j > 3 && k > j {
            Some(line.subrange(j, k))
        } else {
            None
        }
    } else {
        None
    }
}

/// Strips a leading `a/` or `b/` tool prefix, but only when a path follows
/// it: a bare `a/` token is itself the path.
pub open spec fn strip_tool_prefix(tok: Seq<u8>) -> Seq<u8> {
    if tok.len() > 2 && (tok[0] == LOWER_A || tok[0] == LOWER_B) && tok[1] == SLASH {
        tok.subrange(2, tok.len() as int)
    } else {
        tok
    }
}

/// Two consecutive dots anywhere in the path: a traversal sequence.
pub open spec fn has_dotdot(p: Seq<u8>) -> bool {
    exists|i: int| 0 <= i && i + 1 < p.len() && #[trigger] p[i] == DOT && p[i + 1] == DOT
}

/// A header path that must not reach the filesystem: absolute, traversing,
/// or using the foreign separator.
pub open spec fn unsafe_header_path(p: Seq<u8>) -> bool {
    ||| p.len() > 0 && p[0] == SLASH
    ||| has_dotdot(p)
    ||| contains_byte(p, BACKSLASH)
}

/// A line the scanner rejects: a header line whose path, after prefix
/// stripping, is unsafe.
pub open spec fn line_rejected(line: Seq<u8>) -> bool {
    header_token(line) matches Some(tok) && unsafe_header_path(strip_tool_prefix(tok))
}

/// `t[i..j]` is one full line of `t`: it abuts the text's ends or line
/// feeds, and contains none itself.
pub open spec fn is_line(t: Seq<u8>, i: int, j: int) -> bool {
    &&& 0 <= i <= j <= t.len()
    &&& i == 0 || t[i - 1] == LF
    &&& j == t.len() || t[j] == LF
    &&& forall|k: int| i <= k < j ==> t[k] != LF
}

/// Some line of the patch text is a header with an unsafe path.
pub open spec fn has_unsafe_header(t: Seq<u8>) -> bool {
    exists|i: int, j: int| is_line(t, i, j) && line_rejected(t.subrange(i, j))
}

/// A line's end is determined by its start.
proof fn lemma_line_end_unique(t: Seq<u8>, i: int, b1: int, b2: int)
    requires
        is_line(t, i, b1),
        is_line(t, i, b2),
    ensures
        b1 == b2,
{
    if b1 < b2 {
        assert(t[b1] == LF);
        assert(t[b1] != LF);
    }
    if b2 < b1 {
        assert(t[b2] == LF);
        assert(t[b2] != LF);
    }
}

fn blank(b: u8) -> (r: bool)
    ensures
        r == is_blank(b),
{
    b == 32 || b == 9 || b == 13 || b == 11 || b == 12
}

/// Decides `line_rejected` for one line held on its own.
fn line_rejected_exec(line: &Vec<u8>) -> (r: bool)
    ensures
        r == line_rejected(line@),
{
    let n = line.len();
    if n < 3 {
        return false;
    }
    let marked = (line[0] == DASH && line[1] == DASH && line[2] == DASH) || (line[0] == PLUS
        && line[1] == PLUS && line[2] == PLUS);
    if !marked {
        return false;
    }
    let mut j: usize = 3;
    while j < n && blank(line[j])
        invariant
            3 <= j <= n,
            n == line@.len(),
            skip_blank(line@, 3) == skip_blank(line@, j as int),
        decreases n - j,
    {
        assert(skip_blank(line@, j as int) == skip_blank(line@, j as int + 1));
        j = j + 1;
    }
    assert(skip_blank(line@, 3) == j);
    if j == 3 {
        return false;
    }
    let mut k: usize = j;
    while k < n && !blank(line[k])
        invariant
            j <= k <= n,
            n == line@.len(),
            skip_token(line@, j as int) == skip_token(line@, k as int),
        decreases n - k,
    {
        assert(skip_token(line@, k as int) == skip_token(line@, k as int + 1));
        k = k + 1;
    }
    assert(skip_token(line@, j as int) == k);
    if k == j {
        return false;
    }
    let ghost tok = line@.subrange(j as int, k as int);
    assert(header_token(line@) == Some(tok));
    let mut p: usize = j;
    if k - j > 2 && (line[j] == LOWER_A || line[j] == LOWER_B) && line[j + 1] == SLASH {
        p = j + 2;
    }
    let ghost path = strip_tool_prefix(tok);
    assert(path =~= line@.subrange(p as int, k as int));
    assert(p < k);
    if line[p] == SLASH {
        assert(path[0] == SLASH);
        return true;
    }
    let mut q: usize = p;
    while q < k
        invariant
            p <= q <= k <= n,
            n == line@.len(),
            header_token(line@) == Some(line@.subrange(j as int, k as int)),
            path == strip_tool_prefix(line@.subrange(j as int, k as int)),
            path == line@.subrange(p as int, k as int),
            path.len() == k - p,
            forall|a: int| 0 <= a < q - p ==> path[a] != BACKSLASH,
            forall|a: int|
                0 <= a && a < q - p && a + 1 < path.len() ==> !(#[trigger] path[a] == DOT && path[a
                    + 1] == DOT),
        decreases k - q,
    {
        if line[q] == BACKSLASH {
            assert(contains_byte(path, BACKSLASH)) by {
                assert(0 <= q - p < path.len() && path[q - p] == BACKSLASH);
            }
            return true;
        }
        if q + 1 < k && line[q] == DOT && line[q + 1] == DOT {
            assert(has_dotdot(path)) by {
                assert(0 <= q - p && q - p + 1 < path.len() && path[q - p] == DOT && path[q - p
                    + 1] == DOT);
            }
            return true;
        }
        assert(path[q - p] == line@[q as int]);
        q = q + 1;
    }
    assert(!unsafe_header_path(path)) by {
        assert(path[0] == line@[p as int]);
        assert(forall|a: int| 0 <= a < path.len() ==> path[a] != BACKSLASH);
    }
    false
}

/// Scans every line of the patch text and rejects it as soon as any header
/// names an unsafe path. Runs before any byte of the patch is persisted, so
/// acceptance here is the precondition for writing the patch into the root.
pub fn validate_patch_paths(patch: &Vec<u8>) -> (r: Result<(), SandboxError>)
    ensures
        r is Ok <==> !has_unsafe_header(patch@),
        r matches Err(e) ==> e.kind == ErrorKind::UnsafePatchPath && e.message@
            == "unsafe patch path in header"@,
{
    let n = patch.len();
    let mut i: usize = 0;
    loop
        invariant
            0 <= i <= n,
            n == patch@.len(),
            i == 0 || patch@[i as int - 1] == LF,
            forall|a: int, b: int|
                is_line(patch@, a, b) && a < i ==> !line_rejected(patch@.subrange(a, b)),
        decreases n - i,
    {
        let mut j: usize = i;
        while j < n && patch[j] != LF
            invariant
                i <= j <= n,
                n == patch@.len(),
                forall|k: int| i <= k < j ==> patch@[k] != LF,
            decreases n - j,
        {
            j = j + 1;
        }
        assert(is_line(patch@, i as int, j as int));
        let mut line: Vec<u8> = Vec::new();
        let mut q: usize = i;
        while q < j
            invariant
                i <= q <= j <= n,
                n == patch@.len(),
                line@ =~= patch@.subrange(i as int, q as int),
            decreases j - q,
        {
            line.push(patch[q]);
            q = q + 1;
        }
        assert(line@ =~= patch@.subrange(i as int, j as int));
        if line_rejected_exec(&line) {
            assert(has_unsafe_header(patch@));
            return Err(
                SandboxError::new(
                    ErrorKind::UnsafePatchPath,
                    "unsafe patch path in header".to_owned(),
                ),
            );
        }
        if j == n {
            proof {
                assert forall|a: int, b: int|
                    is_line(patch@, a, b) implies !line_rejected(patch@.subrange(a, b)) by {
                    if a >= i {
                        if a > i {
                            assert(patch@[a - 1] == LF);
                            assert(patch@[a - 1] != LF);
                        }
                        lemma_line_end_unique(patch@, i as int, b, j as int);
                    }
                }
            }
            return Ok(());
        }
        proof {
            let iold = i as int;
            assert forall|a: int, b: int|
                is_line(patch@, a, b) && a < j + 1 implies !line_rejected(
                patch@.subrange(a, b),
            ) by {
                if a >= iold {
                    if a > iold {
                        assert(patch@[a - 1] == LF);
                        assert(patch@[a - 1] != LF);
                    }
                    lemma_line_end_unique(patch@, iold, b, j as int);
                }
            }
        }
        i = j + 1;
    }
}

} // verus!
