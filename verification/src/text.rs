//! Verified text utilities shared by the path-safety, scope-splitting and
//! media-type routing logic: string equality, and splitting a string at a
//! class of separator characters.

use vstd::prelude::*;

verus! {

/// The classes of separator characters the library splits strings at.
#[derive(Clone, Copy, PartialEq, Eq, Structural, Debug)]
pub enum Sep {
    /// A forward slash, as in POSIX paths.
    Slash,
    /// A forward slash or a backslash, as in Windows paths.
    SlashOrBackslash,
    /// A single space, as in the `scope` field of a bearer challenge.
    Space,
    /// A plus sign, as in the suffix of a manifest media type.
    Plus,
}

pub open spec fn is_sep(sep: Sep, c: char) -> bool {
    match sep {
        Sep::Slash => c == '/',
        Sep::SlashOrBackslash => c == '/' || c == '\\',
        Sep::Space => c == ' ',
        Sep::Plus => c == '+',
    }
}

/// Index of the first separator at or after `i`, or `s.len()` if there is none.
pub open spec fn seg_end(s: Seq<char>, sep: Sep, i: int) -> int
    decreases s.len() - i when 0 <= i <= s.len()
{
    if i >= s.len() {
        s.len() as int
    } else if is_sep(sep, s[i]) {
        i
    } else {
        seg_end(s, sep, i + 1)
    }
}

pub proof fn lemma_seg_end_bounds(s: Seq<char>, sep: Sep, i: int)
    requires
        0 <= i <= s.len(),
    ensures
        i <= seg_end(s, sep, i) <= s.len(),
        forall|k: int| i <= k < seg_end(s, sep, i) ==> !is_sep(sep, s[k]),
        seg_end(s, sep, i) < s.len() ==> is_sep(sep, s[seg_end(s, sep, i)]),
    decreases s.len() - i,
{
    if i < s.len() && !is_sep(sep, s[i]) {
        lemma_seg_end_bounds(s, sep, i + 1);
    }
}

/// A scan that stopped at `j` with no separator in `[i, j)`, and either hit the
/// end or a separator, has found exactly `seg_end(s, sep, i)`.
pub proof fn lemma_seg_end_at(s: Seq<char>, sep: Sep, i: int, j: int)
    requires
        0 <= i <= j <= s.len(),
        forall|k: int| i <= k < j ==> !is_sep(sep, s[k]),
        j == s.len() || is_sep(sep, s[j]),
    ensures
        seg_end(s, sep, i) == j,
    decreases j - i,
{
    if i < j {
        lemma_seg_end_at(s, sep, i + 1, j);
    }
}

/// The segments of `s` from index `i` on, split at the separators: the text
/// between consecutive separators, including the empty text before a leading
/// separator, after a trailing one, and between adjacent ones.
pub open spec fn split_from(s: Seq<char>, sep: Sep, i: int) -> Seq<Seq<char>>
    decreases s.len() - i when 0 <= i <= s.len() via split_from_decreases
{
    if i > s.len() || i < 0 {
        seq![]
    } else {
        let e = seg_end(s, sep, i);
        if e >= s.len() {
            seq![s.subrange(i, s.len() as int)]
        } else {
            seq![s.subrange(i, e)] + split_from(s, sep, e + 1)
        }
    }
}

#[via_fn]
proof fn split_from_decreases(s: Seq<char>, sep: Sep, i: int) {
    if 0 <= i <= s.len() {
        lemma_seg_end_bounds(s, sep, i);
    }
}

/// The whole string split at the separators.
pub open spec fn split_spec(s: Seq<char>, sep: Sep) -> Seq<Seq<char>> {
    split_from(s, sep, 0)
}

/// String equality, decided character by character.
pub fn str_eq(a: &str, b: &str) -> (r: bool)
    ensures
        r == (a@ == b@),
{
    let an = a.unicode_len();
    let bn = b.unicode_len();
    if an != bn {
        return false;
    }
    let mut i: usize = 0;
    while i < an
        invariant
            i <= an,
            an == a@.len(),
            bn == b@.len(),
            an == bn,
            forall|j: int| 0 <= j < i ==> a@[j] == b@[j],
        decreases an - i,
    {
        if a.get_char(i) != b.get_char(i) {
            return false;
        }
        i += 1;
    }
    proof {
        assert(a@ =~= b@);
    }
    true
}

/// Does `c` belong to the separator class `sep`?
pub fn is_sep_char(sep: Sep, c: char) -> (r: bool)
    ensures
        r == is_sep(sep, c),
{
    match sep {
        Sep::Slash => c == '/',
        Sep::SlashOrBackslash => c == '/' || c == '\\',
        Sep::Space => c == ' ',
        Sep::Plus => c == '+',
    }
}

/// Split `s` at the separators, starting at character index `start`.
pub fn split_str_from(s: &str, sep: Sep, start: usize) -> (r: Vec<String>)
    requires
        start <= s@.len(),
    ensures
        r.deep_view() == split_from(s@, sep, start as int),
{
    let n = s.unicode_len();
    let mut segs: Vec<String> = Vec::new();
    let mut i = start;
    loop
        invariant
            start <= i <= n,
            n == s@.len(),
            split_from(s@, sep, start as int) == segs.deep_view() + split_from(s@, sep, i as int),
        decreases n - i + 1,
    {
        let ghost prev_segs = segs.deep_view();
        let mut j = i;
        while j < n && !is_sep_char(sep, s.get_char(j))
            invariant
                i <= j <= n,
                n == s@.len(),
                forall|k: int| i <= k < j ==> !is_sep(sep, s@[k]),
            decreases n - j,
        {
            j += 1;
        }
        proof {
            lemma_seg_end_at(s@, sep, i as int, j as int);
        }
        let seg = s.substring_char(i, j).to_owned();
        segs.push(seg);
        proof {
            assert(segs.deep_view() =~= prev_segs + seq![s@.subrange(i as int, j as int)]);
        }
        if j < n {
            proof {
                assert(split_from(s@, sep, i as int) == seq![s@.subrange(i as int, j as int)]
                    + split_from(s@, sep, j as int + 1));
                assert(segs.deep_view() + split_from(s@, sep, j as int + 1) =~= prev_segs
                    + split_from(s@, sep, i as int));
            }
            i = j + 1;
        } else {
            proof {
                assert(split_from(s@, sep, i as int) == seq![s@.subrange(i as int, n as int)]);
                assert(segs.deep_view() =~= prev_segs + split_from(s@, sep, i as int));
            }
            return segs;
        }
    }
}

/// Split the whole of `s` at the separators.
pub fn split_str(s: &str, sep: Sep) -> (r: Vec<String>)
    ensures
        r.deep_view() == split_spec(s@, sep),
{
    split_str_from(s, sep, 0)
}

} // verus!
