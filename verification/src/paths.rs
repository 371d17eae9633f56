//! The path-safety rules of the layer application engine: purely semantic
//! path resolution (collapsing `.` and resolving `..`), the containment check
//! offered to unpack sinks, and the AUFS-style whiteout conventions.
//!
//! Paths are modelled as text. A path whose first two characters are an ASCII
//! letter and a colon is treated as a drive-rooted path whose separators are
//! `/` and `\`; any other path uses `/` alone, and is absolute exactly when it
//! begins with `/`.

use vstd::prelude::*;

use crate::text::{is_sep, is_sep_char, split_from, split_str_from, str_eq, Sep};

verus! {

/// A failure of the unpack engine. Each variant carries a plain description
/// of its cause.
#[derive(Debug)]
pub enum UnpackError {
    GetEntries(String),
    GetEntry(String),
    GetEntryPath(String),
    UnpackEntry(String),
    AttemptedFilesystemTraversal(String),
    CanonicalizePath(String, String),
    PathAbs(String),
}

/// How a path is anchored: not at all, at the POSIX root, or at a drive.
#[derive(Debug, Clone, Copy, PartialEq, Eq, Structural)]
pub enum Root {
    Rel,
    Abs,
    Drive(char),
}

pub open spec fn is_ascii_letter(c: char) -> bool {
    (97 <= c as u32 && c as u32 <= 122) || (65 <= c as u32 && c as u32 <= 90)
}

/// Does the path start with a drive marker such as `C:`?
pub open spec fn has_drive(s: Seq<char>) -> bool {
    s.len() >= 2 && is_ascii_letter(s[0]) && s[1] == ':'
}

/// The separator class of a path: drive-rooted paths accept both slashes.
pub open spec fn path_sep(s: Seq<char>) -> Sep {
    if has_drive(s) {
        Sep::SlashOrBackslash
    } else {
        Sep::Slash
    }
}

/// Where the segment text of a path starts, past any drive marker.
pub open spec fn body_start(s: Seq<char>) -> int {
    if has_drive(s) {
        2
    } else {
        0
    }
}

/// The root of a path.
pub open spec fn root_spec(s: Seq<char>) -> Root {
    if has_drive(s) {
        Root::Drive(s[0])
    } else if s.len() >= 1 && s[0] == '/' {
        Root::Abs
    } else {
        Root::Rel
    }
}

/// The raw segments of a path: its body split at the separators.
pub open spec fn raw_segs(s: Seq<char>) -> Seq<Seq<char>> {
    split_from(s, path_sep(s), body_start(s))
}

/// Semantic resolution of a segment list: empty and `.` segments are
/// dropped, and `..` removes the segment before it. Resolving `..` past the
/// beginning of the list fails.
pub open spec fn norm_from(segs: Seq<Seq<char>>, i: int, acc: Seq<Seq<char>>) -> Option<
    Seq<Seq<char>>,
>
    decreases segs.len() - i,
{
    if i < 0 || i >= segs.len() {
        Some(acc)
    } else {
        let seg = segs[i];
        if seg.len() == 0 || seg == seq!['.'] {
            norm_from(segs, i + 1, acc)
        } else if seg == seq!['.', '.'] {
            if acc.len() == 0 {
                None
            } else {
                norm_from(segs, i + 1, acc.drop_last())
            }
        } else {
            norm_from(segs, i + 1, acc.push(seg))
        }
    }
}

pub open spec fn norm_segs(segs: Seq<Seq<char>>) -> Option<Seq<Seq<char>>> {
    norm_from(segs, 0, seq![])
}

/// The semantically resolved form of a path: its root and resolved segments.
pub open spec fn norm_path(s: Seq<char>) -> Option<(Root, Seq<Seq<char>>)> {
    match norm_segs(raw_segs(s)) {
        Some(segs) => Some((root_spec(s), segs)),
        None => None,
    }
}

/// Whether `path` lies under `base`: both resolve, their roots agree, and the
/// resolved segments of `base` are a prefix of those of `path`. `None` when
/// either side fails to resolve.
pub open spec fn path_in_spec(base: Seq<char>, path: Seq<char>) -> Option<bool> {
    match (norm_path(base), norm_path(path)) {
        (Some((broot, bsegs)), Some((proot, psegs))) => Some(
            broot == proot && bsegs.is_prefix_of(psegs),
        ),
        _ => None,
    }
}

/// Is `c` an ASCII letter?
fn is_ascii_letter_char(c: char) -> (r: bool)
    ensures
        r == is_ascii_letter(c),
{
    let u = c as u32;
    (97 <= u && u <= 122) || (65 <= u && u <= 90)
}

/// Split a path into its root and raw segments.
pub fn parse_path(s: &str) -> (r: (Root, Vec<String>))
    ensures
        r.0 == root_spec(s@),
        r.1.deep_view() == raw_segs(s@),
{
    let n = s.unicode_len();
    if n >= 2 && is_ascii_letter_char(s.get_char(0)) && s.get_char(1) == ':' {
        (Root::Drive(s.get_char(0)), split_str_from(s, Sep::SlashOrBackslash, 2))
    } else if n >= 1 && s.get_char(0) == '/' {
        (Root::Abs, split_str_from(s, Sep::Slash, 0))
    } else {
        (Root::Rel, split_str_from(s, Sep::Slash, 0))
    }
}

/// Resolve a segment list semantically; `None` when `..` runs off the start.
pub fn normalize_segs(segs: &Vec<String>) -> (r: Option<Vec<String>>)
    ensures
        match r {
            Some(v) => norm_segs(segs.deep_view()) == Some(v.deep_view()),
            None => norm_segs(segs.deep_view()) is None,
        },
{
    let mut acc: Vec<String> = Vec::new();
    proof {
        assert(acc.deep_view() =~= seq![]);
    }
    let n = segs.len();
    let mut i: usize = 0;
    while i < n
        invariant
            i <= n,
            n == segs.len(),
            norm_from(segs.deep_view(), i as int, acc.deep_view()) == norm_segs(segs.deep_view()),
        decreases n - i,
    {
        let ghost prev_acc = acc.deep_view();
        let seg = &segs[i];
        let len = seg.as_str().unicode_len();
        if len == 0 {
            proof {
                assert(segs.deep_view()[i as int].len() == 0);
            }
        } else if len == 1 && seg.as_str().get_char(0) == '.' {
            proof {
                assert(segs.deep_view()[i as int] =~= seq!['.']);
            }
        } else if len == 2 && seg.as_str().get_char(0) == '.' && seg.as_str().get_char(1) == '.' {
            proof {
                assert(segs.deep_view()[i as int] =~= seq!['.', '.']);
            }
            if acc.len() == 0 {
                return None;
            }
            acc.pop();
            proof {
                assert(acc.deep_view() =~= prev_acc.drop_last());
            }
        } else {
            proof {
                let sv = segs.deep_view()[i as int];
                assert(sv.len() != 0);
                assert(sv != seq!['.']);
                assert(sv != seq!['.', '.']);
            }
            acc.push(seg.clone());
            proof {
                assert(acc.deep_view() =~= prev_acc.push(segs.deep_view()[i as int]));
            }
        }
        i += 1;
    }
    Some(acc)
}

/// Is `a` a segment-wise prefix of `b`?
pub fn segs_is_prefix(a: &Vec<String>, b: &Vec<String>) -> (r: bool)
    ensures
        r == a.deep_view().is_prefix_of(b.deep_view()),
{
    if a.len() > b.len() {
        return false;
    }
    let n = a.len();
    let mut i: usize = 0;
    while i < n
        invariant
            i <= n,
            n == a.len(),
            n <= b.len(),
            forall|j: int| 0 <= j < i ==> a.deep_view()[j] == b.deep_view()[j],
        decreases n - i,
    {
        if !str_eq(a[i].as_str(), b[i].as_str()) {
            proof {
                assert(a.deep_view()[i as int] != b.deep_view()[i as int]);
                assert(!a.deep_view().is_prefix_of(b.deep_view()));
            }
            return false;
        }
        i += 1;
    }
    proof {
        assert(a.deep_view() =~= b.deep_view().subrange(0, a.deep_view().len() as int));
    }
    true
}

/// Whether `path` lies under `base`, by purely semantic resolution: both
/// sides are split at their separators, `.` and `..` segments are resolved,
/// and containment holds when the roots agree and the resolved segments of
/// `base` are a segment-wise prefix of those of `path` — so `/var/empty/fo`
/// does not contain `/var/empty/foo/bar`. A `..` that would climb past the
/// root fails the operation.
pub fn check_path_in(base: &str, path: &str) -> (r: Result<bool, UnpackError>)
    ensures
        match r {
            Ok(b) => path_in_spec(base@, path@) == Some(b),
            Err(e) => path_in_spec(base@, path@) is None && e matches UnpackError::PathAbs(_),
        },
{
    let (broot, bsegs) = parse_path(base);
    let bnorm = match normalize_segs(&bsegs) {
        Some(v) => v,
        None => {
            return Err(UnpackError::PathAbs(base.to_owned()));
        },
    };
    let (proot, psegs) = parse_path(path);
    let pnorm = match normalize_segs(&psegs) {
        Some(v) => v,
        None => {
            return Err(UnpackError::PathAbs(path.to_owned()));
        },
    };
    Ok(broot == proot && segs_is_prefix(&bnorm, &pnorm))
}

/// A segment that survives semantic resolution: nonempty, and neither `.`
/// nor `..`.
pub open spec fn clean_seg(s: Seq<char>) -> bool {
    s.len() != 0 && s != seq!['.'] && s != seq!['.', '.']
}

proof fn lemma_norm_from_clean(segs: Seq<Seq<char>>, i: int, acc: Seq<Seq<char>>)
    requires
        forall|j: int| 0 <= j < acc.len() ==> clean_seg(#[trigger] acc[j]),
    ensures
        norm_from(segs, i, acc) matches Some(ns) ==> forall|j: int|
            0 <= j < ns.len() ==> clean_seg(#[trigger] ns[j]),
    decreases segs.len() - i,
{
    if 0 <= i < segs.len() {
        let seg = segs[i];
        if seg.len() == 0 || seg == seq!['.'] {
            lemma_norm_from_clean(segs, i + 1, acc);
        } else if seg == seq!['.', '.'] {
            if acc.len() != 0 {
                assert(forall|j: int|
                    0 <= j < acc.drop_last().len() ==> clean_seg(#[trigger] acc.drop_last()[j]));
                lemma_norm_from_clean(segs, i + 1, acc.drop_last());
            }
        } else {
            assert(forall|j: int|
                0 <= j < acc.push(seg).len() ==> clean_seg(#[trigger] acc.push(seg)[j]));
            lemma_norm_from_clean(segs, i + 1, acc.push(seg));
        }
    }
}

proof fn lemma_norm_clean_fixed(ns: Seq<Seq<char>>, i: int)
    requires
        0 <= i <= ns.len(),
        forall|j: int| 0 <= j < ns.len() ==> clean_seg(#[trigger] ns[j]),
    ensures
        norm_from(ns, i, ns.take(i)) == Some(ns),
    decreases ns.len() - i,
{
    if i == ns.len() {
        assert(ns.take(i) =~= ns);
    } else {
        assert(ns.take(i).push(ns[i]) =~= ns.take(i + 1));
        lemma_norm_clean_fixed(ns, i + 1);
    }
}

/// Semantic resolution is idempotent: resolving an already-resolved
/// segment list changes nothing.
pub proof fn lemma_norm_idempotent(segs: Seq<Seq<char>>)
    requires
        norm_segs(segs) is Some,
    ensures
        norm_segs(norm_segs(segs).unwrap()) == norm_segs(segs),
{
    let ns = norm_segs(segs).unwrap();
    lemma_norm_from_clean(segs, 0, seq![]);
    assert(ns.take(0) =~= seq![]);
    lemma_norm_clean_fixed(ns, 0);
}

/// Index of the last separator of `s` strictly before `i`, or `-1`.
pub open spec fn last_sep_before(s: Seq<char>, sep: Sep, i: int) -> int
    decreases i,
{
    if i <= 0 {
        -1
    } else if is_sep(sep, s[i - 1]) {
        i - 1
    } else {
        last_sep_before(s, sep, i - 1)
    }
}

/// A backward scan that stopped at `j` identifies the last separator.
pub proof fn lemma_last_sep_at(s: Seq<char>, sep: Sep, j: int, i: int)
    requires
        -1 <= j < i,
        forall|k: int| j < k < i ==> !is_sep(sep, s[k]),
        j == -1 || is_sep(sep, s[j]),
    ensures
        last_sep_before(s, sep, i) == j,
    decreases i - j,
{
    if i - 1 > j {
        lemma_last_sep_at(s, sep, j, i - 1);
    }
}

/// Where the final component of a path ends: one trailing separator is
/// ignored, as the platform path API ignores it, so `a/b/` has the final
/// component `b`.
pub open spec fn trimmed_end(s: Seq<char>) -> int {
    if s.len() > 0 && is_sep(path_sep(s), s[s.len() - 1]) {
        s.len() - 1
    } else {
        s.len() as int
    }
}

/// The final component of a path: the text after its last separator, one
/// trailing separator ignored.
pub open spec fn file_name_spec(s: Seq<char>) -> Seq<char> {
    s.subrange(last_sep_before(s, path_sep(s), trimmed_end(s)) + 1, trimmed_end(s))
}

/// The directory part of a path: the text before its final component's
/// separator, empty when there is none.
pub open spec fn parent_spec(s: Seq<char>) -> Seq<char> {
    let j = last_sep_before(s, path_sep(s), trimmed_end(s));
    if j >= 0 {
        s.subrange(0, j)
    } else {
        seq![]
    }
}

/// The four-character prefix that marks a whiteout entry.
pub open spec fn wh_prefix() -> Seq<char> {
    seq!['.', 'w', 'h', '.']
}

/// The final component that marks an opaque directory.
pub open spec fn opq_marker() -> Seq<char> {
    seq!['.', 'w', 'h', '.', '.', 'w', 'h', '.', '.', 'o', 'p', 'q']
}

/// Whether the entry's final component is the opaque-directory marker.
pub open spec fn is_opaque_entry(s: Seq<char>) -> bool {
    file_name_spec(s) == opq_marker()
}

/// The path a whiteout entry deletes: the entry's path with the whiteout
/// prefix stripped from its final component (and any trailing separator
/// dropped); `None` when the final component does not carry the prefix.
pub open spec fn whiteout_spec(s: Seq<char>) -> Option<Seq<char>> {
    let j = last_sep_before(s, path_sep(s), trimmed_end(s));
    let name = s.subrange(j + 1, trimmed_end(s));
    if name.len() >= 4 && name.subrange(0, 4) == wh_prefix() {
        Some(s.subrange(0, j + 1) + name.skip(4))
    } else {
        None
    }
}

/// The separator class of a path.
pub fn path_sep_of(s: &str) -> (r: Sep)
    ensures
        r == path_sep(s@),
{
    let n = s.unicode_len();
    if n >= 2 && is_ascii_letter_char(s.get_char(0)) && s.get_char(1) == ':' {
        Sep::SlashOrBackslash
    } else {
        Sep::Slash
    }
}

/// Where the final component of `s` ends, one trailing separator ignored.
fn trimmed_len(s: &str) -> (r: usize)
    ensures
        r == trimmed_end(s@),
        r <= s@.len(),
{
    let sep = path_sep_of(s);
    let n = s.unicode_len();
    if n > 0 && is_sep_char(sep, s.get_char(n - 1)) {
        n - 1
    } else {
        n
    }
}

/// The character index just past the last separator of `s`'s final
/// component, i.e. where the final component starts.
fn file_name_start(s: &str) -> (r: usize)
    ensures
        r == last_sep_before(s@, path_sep(s@), trimmed_end(s@)) + 1,
        r <= trimmed_end(s@),
{
    let sep = path_sep_of(s);
    let t = trimmed_len(s);
    let mut i = t;
    while i > 0
        invariant
            i <= t,
            t == trimmed_end(s@),
            t <= s@.len(),
            sep == path_sep(s@),
            forall|k: int| i <= k < t ==> !is_sep(sep, s@[k]),
        decreases i,
    {
        if is_sep_char(sep, s.get_char(i - 1)) {
            proof {
                lemma_last_sep_at(s@, sep, i - 1, t as int);
            }
            return i;
        }
        i -= 1;
    }
    proof {
        lemma_last_sep_at(s@, sep, -1, t as int);
    }
    0
}

/// If the path's final component begins with `.wh.`, the path it whites out:
/// the same path with that prefix stripped from the final component.
pub fn get_whiteout_path(path: &str) -> (r: Option<String>)
    ensures
        match r {
            Some(p) => whiteout_spec(path@) == Some(p@),
            None => whiteout_spec(path@) is None,
        },
{
    let t = trimmed_len(path);
    let start = file_name_start(path);
    let ghost j = last_sep_before(path@, path_sep(path@), trimmed_end(path@));
    let ghost name = path@.subrange(j + 1, trimmed_end(path@));
    if t - start >= 4 && path.get_char(start) == '.' && path.get_char(start + 1) == 'w'
        && path.get_char(start + 2) == 'h' && path.get_char(start + 3) == '.' {
        proof {
            assert(name.subrange(0, 4) =~= wh_prefix());
        }
        let mut out = path.substring_char(0, start).to_owned();
        out.append(path.substring_char(start + 4, t));
        proof {
            assert(name.skip(4) =~= path@.subrange(start + 4, t as int));
            assert(out@ =~= path@.subrange(0, j + 1) + name.skip(4));
        }
        Some(out)
    } else {
        proof {
            if name.len() >= 4 && name.subrange(0, 4) == wh_prefix() {
                assert(name.subrange(0, 4)[0] == path@[start as int]);
                assert(name.subrange(0, 4)[1] == path@[start + 1]);
                assert(name.subrange(0, 4)[2] == path@[start + 2]);
                assert(name.subrange(0, 4)[3] == path@[start + 3]);
                assert(false);
            }
        }
        None
    }
}

/// What a layer entry asks of the unpack sink.
#[derive(Debug)]
pub enum ChangeAction {
    /// Remove every inherited child of the directory at the carried path.
    WhiteoutFolder(String),
    /// Remove the file at the carried path.
    WhiteoutFile(String),
    /// Create or modify the entry's own path.
    Add,
}

/// Dispatch a layer entry by its path: an opaque-directory marker whites out
/// the containing directory, a `.wh.` component whites out a single file, and
/// anything else is an addition or modification.
pub fn classify_change(path: &str) -> (r: ChangeAction)
    ensures
        match r {
            ChangeAction::WhiteoutFolder(p) => is_opaque_entry(path@) && p@ == parent_spec(path@),
            ChangeAction::WhiteoutFile(p) => !is_opaque_entry(path@) && whiteout_spec(path@)
                == Some(p@),
            ChangeAction::Add => !is_opaque_entry(path@) && whiteout_spec(path@) is None,
        },
{
    let t = trimmed_len(path);
    let start = file_name_start(path);
    let name = path.substring_char(start, t);
    if str_eq(name, ".wh..wh..opq") {
        proof {
            reveal_strlit(".wh..wh..opq");
            assert(".wh..wh..opq"@ =~= opq_marker());
        }
        let parent = if start > 0 {
            path.substring_char(0, start - 1).to_owned()
        } else {
            String::new()
        };
        proof {
            assert(parent@ =~= parent_spec(path@));
        }
        ChangeAction::WhiteoutFolder(parent)
    } else {
        proof {
            reveal_strlit(".wh..wh..opq");
            assert(".wh..wh..opq"@ =~= opq_marker());
        }
        match get_whiteout_path(path) {
            Some(p) => ChangeAction::WhiteoutFile(p),
            None => ChangeAction::Add,
        }
    }
}

/// What the filesystem answered when one ancestor of a path was resolved.
#[derive(Debug)]
pub enum CanonOutcome {
    /// The ancestor exists; this is its resolved form.
    Resolved(String),
    /// The ancestor does not exist.
    NotFound,
    /// Resolving the ancestor failed for another reason.
    IoFailure(String),
}

/// What the partial-canonicalization walk does next.
#[derive(Debug)]
pub enum CanonStep {
    /// The walk is done; this is the partially canonicalized path.
    Stop(String),
    /// Try the next, shorter ancestor.
    Continue,
    /// The walk fails with this error.
    Fail(UnpackError),
}

/// A resolved prefix joined to the unresolved remainder, with a separator
/// between them when the prefix does not already end in one.
pub open spec fn joined(c: Seq<char>, rest: Seq<char>) -> Seq<char> {
    if rest.len() == 0 {
        c
    } else if c.len() > 0 && !is_sep(path_sep(c), c.last()) {
        c + seq!['/'] + rest
    } else {
        c + rest
    }
}

/// One decision of the partial-canonicalization walk, from the longest
/// ancestor down: the first ancestor that resolves ends the walk with the
/// resolved prefix joined to the untouched remainder; a missing ancestor
/// means trying the next; any other failure ends the operation.
pub fn canon_step(ancestor: &str, rest: &str, o: CanonOutcome) -> (r: CanonStep)
    ensures
        (o matches CanonOutcome::Resolved(c) ==> r matches CanonStep::Stop(p) && p@ == joined(
            c@,
            rest@,
        )),
        (o is NotFound ==> r is Continue),
        (o matches CanonOutcome::IoFailure(e) ==> r matches CanonStep::Fail(f) && (f matches
            UnpackError::CanonicalizePath(a, m) && a@ == ancestor@ && m@ == e@)),
{
    match o {
        CanonOutcome::Resolved(c) => {
            let mut out = c;
            let ghost cv = out@;
            if rest.unicode_len() == 0 {
                return CanonStep::Stop(out);
            }
            let cn = out.as_str().unicode_len();
            if cn > 0 && !is_sep_char(path_sep_of(out.as_str()), out.as_str().get_char(cn - 1)) {
                out.append("/");
                out.append(rest);
                proof {
                    reveal_strlit("/");
                    assert("/"@ =~= seq!['/']);
                    assert(out@ =~= cv + seq!['/'] + rest@);
                }
            } else {
                out.append(rest);
                proof {
                    assert(out@ =~= cv + rest@);
                }
            }
            CanonStep::Stop(out)
        },
        CanonOutcome::NotFound => CanonStep::Continue,
        CanonOutcome::IoFailure(e) => CanonStep::Fail(
            UnpackError::CanonicalizePath(ancestor.to_owned(), e),
        ),
    }
}

/// Is `b` an ASCII-letter byte?
pub open spec fn is_ascii_letter_byte(b: u8) -> bool {
    (97 <= b && b <= 122) || (65 <= b && b <= 90)
}

/// Is `b` a separator byte of the class `sep`?
pub open spec fn is_sep_byte(sep: Sep, b: u8) -> bool {
    match sep {
        Sep::Slash => b == 47,
        Sep::SlashOrBackslash => b == 47 || b == 92,
        Sep::Space => b == 32,
        Sep::Plus => b == 43,
    }
}

/// Does the byte path start with a drive marker such as `C:`?
pub open spec fn has_drive_b(s: Seq<u8>) -> bool {
    s.len() >= 2 && is_ascii_letter_byte(s[0]) && s[1] == 58
}

/// The separator class of a byte path.
pub open spec fn path_sep_b(s: Seq<u8>) -> Sep {
    if has_drive_b(s) {
        Sep::SlashOrBackslash
    } else {
        Sep::Slash
    }
}

/// Index of the last separator byte strictly before `i`, or `-1`.
pub open spec fn last_sep_before_b(s: Seq<u8>, sep: Sep, i: int) -> int
    decreases i,
{
    if i <= 0 {
        -1
    } else if is_sep_byte(sep, s[i - 1]) {
        i - 1
    } else {
        last_sep_before_b(s, sep, i - 1)
    }
}

/// A backward scan that stopped at `j` identifies the last separator byte.
proof fn lemma_last_sep_at_b(s: Seq<u8>, sep: Sep, j: int, i: int)
    requires
        -1 <= j < i,
        forall|k: int| j < k < i ==> !is_sep_byte(sep, s[k]),
        j == -1 || is_sep_byte(sep, s[j]),
    ensures
        last_sep_before_b(s, sep, i) == j,
    decreases i - j,
{
    if i - 1 > j {
        lemma_last_sep_at_b(s, sep, j, i - 1);
    }
}

/// Where the final component of a byte path ends, one trailing separator
/// ignored.
pub open spec fn trimmed_end_b(s: Seq<u8>) -> int {
    if s.len() > 0 && is_sep_byte(path_sep_b(s), s[s.len() - 1]) {
        s.len() - 1
    } else {
        s.len() as int
    }
}

/// The final component of a byte path.
pub open spec fn file_name_spec_b(s: Seq<u8>) -> Seq<u8> {
    s.subrange(last_sep_before_b(s, path_sep_b(s), trimmed_end_b(s)) + 1, trimmed_end_b(s))
}

/// The directory part of a byte path.
pub open spec fn parent_spec_b(s: Seq<u8>) -> Seq<u8> {
    let j = last_sep_before_b(s, path_sep_b(s), trimmed_end_b(s));
    if j >= 0 {
        s.subrange(0, j)
    } else {
        seq![]
    }
}

/// The whiteout prefix, as the bytes of `.wh.`.
pub open spec fn wh_prefix_b() -> Seq<u8> {
    seq![46u8, 119u8, 104u8, 46u8]
}

/// The opaque-directory marker, as the bytes of `.wh..wh..opq`.
pub open spec fn opq_marker_b() -> Seq<u8> {
    seq![46u8, 119u8, 104u8, 46u8, 46u8, 119u8, 104u8, 46u8, 46u8, 111u8, 112u8, 113u8]
}

/// Whether the byte path's final component is the opaque-directory marker.
pub open spec fn is_opaque_entry_b(s: Seq<u8>) -> bool {
    file_name_spec_b(s) == opq_marker_b()
}

/// The byte path a whiteout entry deletes, or `None`.
pub open spec fn whiteout_spec_b(s: Seq<u8>) -> Option<Seq<u8>> {
    let j = last_sep_before_b(s, path_sep_b(s), trimmed_end_b(s));
    let name = s.subrange(j + 1, trimmed_end_b(s));
    if name.len() >= 4 && name.subrange(0, 4) == wh_prefix_b() {
        Some(s.subrange(0, j + 1) + name.skip(4))
    } else {
        None
    }
}

/// Is `b` a separator byte of the class `sep`?
fn is_sep_byte_exec(sep: Sep, b: u8) -> (r: bool)
    ensures
        r == is_sep_byte(sep, b),
{
    match sep {
        Sep::Slash => b == 47,
        Sep::SlashOrBackslash => b == 47 || b == 92,
        Sep::Space => b == 32,
        Sep::Plus => b == 43,
    }
}

/// The bytes of `v` from `a` up to `b`.
fn bytes_range(v: &Vec<u8>, a: usize, b: usize) -> (r: Vec<u8>)
    requires
        a <= b <= v@.len(),
    ensures
        r@ == v@.subrange(a as int, b as int),
{
    let mut out: Vec<u8> = Vec::new();
    let mut i = a;
    while i < b
        invariant
            a <= i <= b <= v@.len(),
            out@ =~= v@.subrange(a as int, i as int),
        decreases b - i,
    {
        out.push(v[i]);
        i += 1;
    }
    proof {
        assert(out@ =~= v@.subrange(a as int, b as int));
    }
    out
}

/// The separator class of a byte path.
fn path_sep_b_of(s: &Vec<u8>) -> (r: Sep)
    ensures
        r == path_sep_b(s@),
{
    let n = s.len();
    if n >= 2 && ((97 <= s[0] && s[0] <= 122) || (65 <= s[0] && s[0] <= 90)) && s[1] == 58 {
        Sep::SlashOrBackslash
    } else {
        Sep::Slash
    }
}

/// Where the final component of a byte path ends.
fn trimmed_len_b(s: &Vec<u8>) -> (r: usize)
    ensures
        r == trimmed_end_b(s@),
        r <= s@.len(),
{
    let sep = path_sep_b_of(s);
    let n = s.len();
    if n > 0 && is_sep_byte_exec(sep, s[n - 1]) {
        n - 1
    } else {
        n
    }
}

/// Where the final component of a byte path starts.
fn file_name_start_b(s: &Vec<u8>) -> (r: usize)
    ensures
        r == last_sep_before_b(s@, path_sep_b(s@), trimmed_end_b(s@)) + 1,
        r <= trimmed_end_b(s@),
{
    let sep = path_sep_b_of(s);
    let t = trimmed_len_b(s);
    let mut i = t;
    while i > 0
        invariant
            i <= t,
            t == trimmed_end_b(s@),
            t <= s@.len(),
            sep == path_sep_b(s@),
            forall|k: int| i <= k < t ==> !is_sep_byte(sep, s@[k]),
        decreases i,
    {
        if is_sep_byte_exec(sep, s[i - 1]) {
            proof {
                lemma_last_sep_at_b(s@, sep, i - 1, t as int);
            }
            return i;
        }
        i -= 1;
    }
    proof {
        lemma_last_sep_at_b(s@, sep, -1, t as int);
    }
    0
}

/// `get_whiteout_path` on raw path bytes, for tar entries whose names are
/// not text: byte-exact on the OS-native encoding, as the whiteout
/// convention asks.
pub fn get_whiteout_path_bytes(path: &Vec<u8>) -> (r: Option<Vec<u8>>)
    ensures
        match r {
            Some(p) => whiteout_spec_b(path@) == Some(p@),
            None => whiteout_spec_b(path@) is None,
        },
{
    let t = trimmed_len_b(path);
    let start = file_name_start_b(path);
    let ghost j = last_sep_before_b(path@, path_sep_b(path@), trimmed_end_b(path@));
    let ghost name = path@.subrange(j + 1, trimmed_end_b(path@));
    if t - start >= 4 && path[start] == 46 && path[start + 1] == 119 && path[start + 2] == 104
        && path[start + 3] == 46 {
        proof {
            assert(name.subrange(0, 4) =~= wh_prefix_b());
        }
        let mut out = bytes_range(path, 0, start);
        let mut rest = bytes_range(path, start + 4, t);
        out.append(&mut rest);
        proof {
            assert(name.skip(4) =~= path@.subrange(start + 4, t as int));
            assert(out@ =~= path@.subrange(0, j + 1) + name.skip(4));
        }
        Some(out)
    } else {
        proof {
            if name.len() >= 4 && name.subrange(0, 4) == wh_prefix_b() {
                assert(name.subrange(0, 4)[0] == path@[start as int]);
                assert(name.subrange(0, 4)[1] == path@[start + 1]);
                assert(name.subrange(0, 4)[2] == path@[start + 2]);
                assert(name.subrange(0, 4)[3] == path@[start + 3]);
                assert(false);
            }
        }
        None
    }
}

/// What a layer entry asks of the unpack sink, with raw byte paths.
#[derive(Debug, PartialEq)]
pub enum ChangeActionBytes {
    /// Remove every inherited child of the directory at the carried path.
    WhiteoutFolder(Vec<u8>),
    /// Remove the file at the carried path.
    WhiteoutFile(Vec<u8>),
    /// Create or modify the entry's own path.
    Add,
}

/// `classify_change` on raw path bytes: the dispatch of a tar entry is
/// byte-exact on the OS-native encoding.
pub fn classify_change_bytes(path: &Vec<u8>) -> (r: ChangeActionBytes)
    ensures
        match r {
            ChangeActionBytes::WhiteoutFolder(p) => is_opaque_entry_b(path@) && p@ == parent_spec_b(
                path@,
            ),
            ChangeActionBytes::WhiteoutFile(p) => !is_opaque_entry_b(path@) && whiteout_spec_b(
                path@,
            ) == Some(p@),
            ChangeActionBytes::Add => !is_opaque_entry_b(path@) && whiteout_spec_b(path@) is None,
        },
{
    let t = trimmed_len_b(path);
    let start = file_name_start_b(path);
    let name = bytes_range(path, start, t);
    let is_marker = name.len() == 12 && name[0] == 46 && name[1] == 119 && name[2] == 104
        && name[3] == 46 && name[4] == 46 && name[5] == 119 && name[6] == 104 && name[7] == 46
        && name[8] == 46 && name[9] == 111 && name[10] == 112 && name[11] == 113;
    if is_marker {
        proof {
            assert(name@ =~= opq_marker_b());
        }
        let parent = if start > 0 {
            bytes_range(path, 0, start - 1)
        } else {
            Vec::new()
        };
        proof {
            assert(parent@ =~= parent_spec_b(path@));
        }
        ChangeActionBytes::WhiteoutFolder(parent)
    } else {
        proof {
            assert(name@ != opq_marker_b());
        }
        match get_whiteout_path_bytes(path) {
            Some(p) => ChangeActionBytes::WhiteoutFile(p),
            None => ChangeActionBytes::Add,
        }
    }
}

/// Both resolved sides contain themselves.
pub proof fn lemma_path_in_reflexive(s: Seq<char>)
    requires
        norm_path(s) is Some,
    ensures
        path_in_spec(s, s) == Some(true),
{
    let segs = norm_path(s).unwrap().1;
    assert(segs =~= segs.subrange(0, segs.len() as int));
}

/// Containment is transitive over resolved paths.
pub proof fn lemma_path_in_transitive(a: Seq<char>, b: Seq<char>, c: Seq<char>)
    requires
        path_in_spec(a, b) == Some(true),
        path_in_spec(b, c) == Some(true),
    ensures
        path_in_spec(a, c) == Some(true),
{
    let asegs = norm_path(a).unwrap().1;
    let bsegs = norm_path(b).unwrap().1;
    let csegs = norm_path(c).unwrap().1;
    assert(asegs =~= bsegs.subrange(0, asegs.len() as int));
    assert(bsegs =~= csegs.subrange(0, bsegs.len() as int));
    assert(asegs =~= csegs.subrange(0, asegs.len() as int));
}

} // verus!
