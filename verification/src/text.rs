//! Verified text utilities: splitting, trimming and joining.
//!
//! The command grammar and the derived paths and URLs are all built from
//! these operations, so each executable function here is pinned to a
//! recursive specification of what it produces.

use vstd::prelude::*;
use vstd::string::StrSliceExecFns;
use vstd::string::StringExecFns;

verus! {

/// A character with the Unicode `White_Space` property, the set that
/// `str::trim` removes from both ends of a string.
pub open spec fn is_ws_char(c: char) -> bool {
    c == ' ' || c == '\t' || c == '\n' || c == '\u{b}' || c == '\u{c}' || c == '\r' || c
        == '\u{85}' || c == '\u{a0}' || c == '\u{1680}' || c == '\u{2000}' || c == '\u{2001}' || c
        == '\u{2002}' || c == '\u{2003}' || c == '\u{2004}' || c == '\u{2005}' || c == '\u{2006}'
        || c == '\u{2007}' || c == '\u{2008}' || c == '\u{2009}' || c == '\u{200a}' || c
        == '\u{2028}' || c == '\u{2029}' || c == '\u{202f}' || c == '\u{205f}' || c == '\u{3000}'
}

/// Decides [`is_ws_char`] on a concrete character.
pub fn char_is_ws(c: char) -> (b: bool)
    ensures
        b == is_ws_char(c),
{
    c == ' ' || c == '\t' || c == '\n' || c == '\u{b}' || c == '\u{c}' || c == '\r' || c
        == '\u{85}' || c == '\u{a0}' || c == '\u{1680}' || c == '\u{2000}' || c == '\u{2001}' || c
        == '\u{2002}' || c == '\u{2003}' || c == '\u{2004}' || c == '\u{2005}' || c == '\u{2006}'
        || c == '\u{2007}' || c == '\u{2008}' || c == '\u{2009}' || c == '\u{200a}' || c
        == '\u{2028}' || c == '\u{2029}' || c == '\u{202f}' || c == '\u{205f}' || c == '\u{3000}'
}

/// Splitting a character sequence on a separator character, in the sense of
/// `str::split`: the result always has at least one piece, pieces may be
/// empty, and the separator occurs in none of them.
pub open spec fn spec_split_char(s: Seq<char>, sep: char) -> Seq<Seq<char>>
    decreases s.len(),
{
    if s.len() == 0 {
        seq![Seq::<char>::empty()]
    } else if s[0] == sep {
        seq![Seq::<char>::empty()] + spec_split_char(s.drop_first(), sep)
    } else {
        let rest = spec_split_char(s.drop_first(), sep);
        seq![seq![s[0]] + rest[0]] + rest.drop_first()
    }
}

/// A split always yields at least one piece.
pub proof fn lemma_split_char_len(s: Seq<char>, sep: char)
    ensures
        spec_split_char(s, sep).len() >= 1,
    decreases s.len(),
{
    if s.len() == 0 {
    } else if s[0] == sep {
    } else {
        lemma_split_char_len(s.drop_first(), sep);
    }
}

/// A sequence without the separator splits into itself alone.
pub proof fn lemma_split_char_no_sep(s: Seq<char>, sep: char)
    requires
        forall|j: int| 0 <= j < s.len() ==> s[j] != sep,
    ensures
        spec_split_char(s, sep) == seq![s],
    decreases s.len(),
{
    if s.len() == 0 {
        assert(spec_split_char(s, sep) =~~= seq![s]);
    } else {
        lemma_split_char_no_sep(s.drop_first(), sep);
        assert(spec_split_char(s, sep) =~~= seq![s]);
    }
}

/// Splitting at the first occurrence of the separator: everything before it
/// is the first piece, and the rest splits independently.
pub proof fn lemma_split_char_at_first(s: Seq<char>, sep: char, i: int)
    requires
        0 <= i < s.len(),
        s[i] == sep,
        forall|j: int| 0 <= j < i ==> s[j] != sep,
    ensures
        spec_split_char(s, sep) == seq![s.subrange(0, i)] + spec_split_char(
            s.subrange(i + 1, s.len() as int),
            sep,
        ),
    decreases i,
{
    if i == 0 {
        assert(s.drop_first() =~~= s.subrange(1, s.len() as int));
        assert(s.subrange(0, 0) =~~= Seq::<char>::empty());
        assert(spec_split_char(s, sep) =~~= seq![s.subrange(0, 0)] + spec_split_char(
            s.subrange(1, s.len() as int),
            sep,
        ));
    } else {
        let d = s.drop_first();
        lemma_split_char_at_first(d, sep, i - 1);
        let rest = spec_split_char(d, sep);
        lemma_split_char_len(d, sep);
        assert(d.subrange(0, i - 1) =~~= s.subrange(1, i));
        assert(d.subrange(i, d.len() as int) =~~= s.subrange(i + 1, s.len() as int));
        assert(rest[0] == s.subrange(1, i));
        assert(seq![s[0]] + rest[0] =~~= s.subrange(0, i));
        assert(rest.drop_first() =~~= spec_split_char(s.subrange(i + 1, s.len() as int), sep));
        assert(spec_split_char(s, sep) =~~= seq![s.subrange(0, i)] + spec_split_char(
            s.subrange(i + 1, s.len() as int),
            sep,
        ));
    }
}

/// Splits `s` on single occurrences of the character `sep`.
pub fn split_on_char(s: &str, sep: char) -> (r: Vec<String>)
    ensures
        r.deep_view() == spec_split_char(s@, sep),
{
    let n = s.unicode_len();
    let mut parts: Vec<String> = Vec::new();
    let mut start: usize = 0;
    let mut i: usize = 0;
    proof {
        assert(s@.subrange(0, n as int) =~~= s@);
        assert(parts.deep_view() + spec_split_char(s@, sep) =~~= spec_split_char(s@, sep));
    }
    while i < n
        invariant
            n == s@.len(),
            0 <= start <= i <= n,
            forall|j: int| start <= j < i ==> s@[j] != sep,
            spec_split_char(s@, sep) == parts.deep_view() + spec_split_char(
                s@.subrange(start as int, n as int),
                sep,
            ),
        decreases n - i,
    {
        if s.get_char(i) == sep {
            let piece = s.substring_char(start, i).to_owned();
            proof {
                let tail = s@.subrange(start as int, n as int);
                lemma_split_char_at_first(tail, sep, i - start);
                assert(tail.subrange(0, i - start) =~~= s@.subrange(start as int, i as int));
                assert(tail.subrange(i - start + 1, tail.len() as int) =~~= s@.subrange(
                    i + 1,
                    n as int,
                ));
                assert(parts.deep_view().push(piece@) =~~= parts.deep_view() + seq![
                    s@.subrange(start as int, i as int),
                ]);
            }
            parts.push(piece);
            proof {
                assert(spec_split_char(s@, sep) =~~= parts.deep_view() + spec_split_char(
                    s@.subrange(i + 1, n as int),
                    sep,
                ));
            }
            start = i + 1;
        }
        i += 1;
    }
    let last = s.substring_char(start, n).to_owned();
    proof {
        lemma_split_char_no_sep(s@.subrange(start as int, n as int), sep);
        assert(parts.deep_view().push(last@) =~~= parts.deep_view() + seq![
            s@.subrange(start as int, n as int),
        ]);
    }
    parts.push(last);
    proof {
        assert(parts.deep_view() =~~= spec_split_char(s@, sep));
    }
    parts
}

/// An occurrence of the two-character path separator `::` at position `j`.
pub open spec fn sep_at(s: Seq<char>, j: int) -> bool {
    0 <= j && j + 1 < s.len() && s[j] == ':' && s[j + 1] == ':'
}

/// Splitting a character sequence on the path separator `::`, in the sense
/// of `str::split("::")`: leftmost-first, non-overlapping.
pub open spec fn spec_split_path(s: Seq<char>) -> Seq<Seq<char>>
    decreases s.len(),
{
    if s.len() < 2 {
        seq![s]
    } else if s[0] == ':' && s[1] == ':' {
        seq![Seq::<char>::empty()] + spec_split_path(s.skip(2))
    } else {
        let rest = spec_split_path(s.drop_first());
        seq![seq![s[0]] + rest[0]] + rest.drop_first()
    }
}

/// A path split always yields at least one segment.
pub proof fn lemma_split_path_len(s: Seq<char>)
    ensures
        spec_split_path(s).len() >= 1,
    decreases s.len(),
{
    if s.len() < 2 {
    } else if s[0] == ':' && s[1] == ':' {
    } else {
        lemma_split_path_len(s.drop_first());
    }
}

/// A sequence without the path separator splits into itself alone.
pub proof fn lemma_split_path_no_sep(s: Seq<char>)
    requires
        forall|j: int| !sep_at(s, j),
    ensures
        spec_split_path(s) == seq![s],
    decreases s.len(),
{
    if s.len() < 2 {
        assert(spec_split_path(s) =~~= seq![s]);
    } else {
        assert(!sep_at(s, 0));
        assert forall|j: int| !sep_at(s.drop_first(), j) by {
            if sep_at(s.drop_first(), j) {
                assert(sep_at(s, j + 1));
            }
        }
        lemma_split_path_no_sep(s.drop_first());
        assert(spec_split_path(s) =~~= seq![s]);
    }
}

/// No segment of a path split contains the separator, and the first
/// segment is a prefix of the split sequence.
pub proof fn lemma_split_path_segments_sep_free(s: Seq<char>)
    ensures
        forall|k: int|
            0 <= k < spec_split_path(s).len() ==> forall|j: int|
                !sep_at(#[trigger] spec_split_path(s)[k], j),
        spec_split_path(s)[0].len() <= s.len(),
        forall|j: int|
            0 <= j < spec_split_path(s)[0].len() ==> spec_split_path(s)[0][j] == s[j],
    decreases s.len(),
{
    lemma_split_path_len(s);
    if s.len() < 2 {
        assert forall|k: int|
            0 <= k < spec_split_path(s).len() implies forall|j: int|
            !sep_at(#[trigger] spec_split_path(s)[k], j) by {
            assert(spec_split_path(s)[k] == s);
        }
    } else if s[0] == ':' && s[1] == ':' {
        lemma_split_path_segments_sep_free(s.skip(2));
        let parts = spec_split_path(s);
        let rest = spec_split_path(s.skip(2));
        assert forall|k: int| 0 <= k < parts.len() implies forall|j: int|
            !sep_at(#[trigger] parts[k], j) by {
            if k == 0 {
                assert(parts[0] == Seq::<char>::empty());
            } else {
                assert(parts[k] == rest[k - 1]);
            }
        }
    } else {
        let d = s.drop_first();
        lemma_split_path_segments_sep_free(d);
        let parts = spec_split_path(s);
        let rest = spec_split_path(d);
        let e = seq![s[0]] + rest[0];
        assert forall|j: int| !sep_at(e, j) by {
            if sep_at(e, j) {
                if j == 0 {
                    assert(e[0] == s[0]);
                    assert(e[1] == rest[0][0]);
                    assert(rest[0][0] == d[0]);
                } else {
                    assert(e[j] == rest[0][j - 1]);
                    assert(e[j + 1] == rest[0][j]);
                    assert(sep_at(rest[0], j - 1));
                }
            }
        }
        assert forall|k: int| 0 <= k < parts.len() implies forall|j: int|
            !sep_at(#[trigger] parts[k], j) by {
            if k == 0 {
                assert(parts[0] == e);
            } else {
                assert(parts[k] == rest[k]);
            }
        }
        assert forall|j: int| 0 <= j < parts[0].len() implies parts[0][j] == s[j] by {
            if j >= 1 {
                assert(parts[0][j] == rest[0][j - 1]);
                assert(rest[0][j - 1] == d[j - 1]);
            }
        }
    }
}

/// Splitting at the first occurrence of the path separator: everything
/// before it is the first segment, and the rest splits independently.
pub proof fn lemma_split_path_at_first(s: Seq<char>, i: int)
    requires
        sep_at(s, i),
        forall|j: int| 0 <= j < i ==> !sep_at(s, j),
    ensures
        spec_split_path(s) == seq![s.subrange(0, i)] + spec_split_path(
            s.subrange(i + 2, s.len() as int),
        ),
    decreases i,
{
    if i == 0 {
        assert(s.skip(2) =~~= s.subrange(2, s.len() as int));
        assert(s.subrange(0, 0) =~~= Seq::<char>::empty());
        assert(spec_split_path(s) =~~= seq![s.subrange(0, 0)] + spec_split_path(
            s.subrange(2, s.len() as int),
        ));
    } else {
        let d = s.drop_first();
        assert(!sep_at(s, 0));
        assert(sep_at(d, i - 1));
        assert forall|j: int| 0 <= j < i - 1 implies !sep_at(d, j) by {
            if sep_at(d, j) {
                assert(sep_at(s, j + 1));
            }
        }
        lemma_split_path_at_first(d, i - 1);
        lemma_split_path_len(d);
        let rest = spec_split_path(d);
        assert(d.subrange(0, i - 1) =~~= s.subrange(1, i));
        assert(d.subrange(i + 1, d.len() as int) =~~= s.subrange(i + 2, s.len() as int));
        assert(rest[0] == s.subrange(1, i));
        assert(seq![s[0]] + rest[0] =~~= s.subrange(0, i));
        assert(rest.drop_first() =~~= spec_split_path(s.subrange(i + 2, s.len() as int)));
        assert(spec_split_path(s) =~~= seq![s.subrange(0, i)] + spec_split_path(
            s.subrange(i + 2, s.len() as int),
        ));
    }
}

/// Splits `s` on occurrences of the path separator `::`.
pub fn split_on_path_sep(s: &str) -> (r: Vec<String>)
    ensures
        r.deep_view() == spec_split_path(s@),
        r@.len() >= 1,
{
    let n = s.unicode_len();
    let mut parts: Vec<String> = Vec::new();
    let mut start: usize = 0;
    let mut i: usize = 0;
    proof {
        assert(s@.subrange(0, n as int) =~~= s@);
        assert(parts.deep_view() + spec_split_path(s@) =~~= spec_split_path(s@));
    }
    while i < n
        invariant
            n == s@.len(),
            0 <= start <= i <= n,
            forall|j: int| start <= j < i ==> !sep_at(s@, j),
            spec_split_path(s@) == parts.deep_view() + spec_split_path(
                s@.subrange(start as int, n as int),
            ),
        decreases n - i,
    {
        if i + 1 < n && s.get_char(i) == ':' && s.get_char(i + 1) == ':' {
            let piece = s.substring_char(start, i).to_owned();
            proof {
                let tail = s@.subrange(start as int, n as int);
                assert(sep_at(tail, i - start));
                assert forall|j: int| 0 <= j < i - start implies !sep_at(tail, j) by {
                    if sep_at(tail, j) {
                        assert(sep_at(s@, j + start));
                    }
                }
                lemma_split_path_at_first(tail, i - start);
                assert(tail.subrange(0, i - start) =~~= s@.subrange(start as int, i as int));
                assert(tail.subrange(i - start + 2, tail.len() as int) =~~= s@.subrange(
                    i + 2,
                    n as int,
                ));
                assert(parts.deep_view().push(piece@) =~~= parts.deep_view() + seq![
                    s@.subrange(start as int, i as int),
                ]);
            }
            parts.push(piece);
            proof {
                assert(spec_split_path(s@) =~~= parts.deep_view() + spec_split_path(
                    s@.subrange(i + 2, n as int),
                ));
            }
            start = i + 2;
            i = start;
        } else {
            i += 1;
        }
    }
    let last = s.substring_char(start, n).to_owned();
    proof {
        let tail = s@.subrange(start as int, n as int);
        assert forall|j: int| !sep_at(tail, j) by {
            if sep_at(tail, j) {
                assert(sep_at(s@, j + start));
            }
        }
        lemma_split_path_no_sep(tail);
        assert(parts.deep_view().push(last@) =~~= parts.deep_view() + seq![tail]);
    }
    parts.push(last);
    proof {
        assert(parts.deep_view() =~~= spec_split_path(s@));
    }
    parts
}

/// What is left of a sequence after removing leading whitespace.
pub open spec fn spec_trim_start(s: Seq<char>) -> Seq<char>
    decreases s.len(),
{
    if s.len() > 0 && is_ws_char(s[0]) {
        spec_trim_start(s.drop_first())
    } else {
        s
    }
}

/// What is left of a sequence after removing trailing whitespace.
pub open spec fn spec_trim_end(s: Seq<char>) -> Seq<char>
    decreases s.len(),
{
    if s.len() > 0 && is_ws_char(s[s.len() - 1]) {
        spec_trim_end(s.drop_last())
    } else {
        s
    }
}

/// What is left of a sequence after removing whitespace from both ends, in
/// the sense of `str::trim`.
pub open spec fn spec_trim(s: Seq<char>) -> Seq<char> {
    spec_trim_end(spec_trim_start(s))
}

/// If the first `k` characters are whitespace and the next one (if any) is
/// not, trimming the start keeps exactly the suffix from `k` on.
pub proof fn lemma_trim_start_at(s: Seq<char>, k: int)
    requires
        0 <= k <= s.len(),
        forall|j: int| 0 <= j < k ==> is_ws_char(s[j]),
        k == s.len() || !is_ws_char(s[k]),
    ensures
        spec_trim_start(s) == s.subrange(k, s.len() as int),
    decreases k,
{
    if k == 0 {
        assert(s.subrange(0, s.len() as int) =~~= s);
    } else {
        lemma_trim_start_at(s.drop_first(), k - 1);
        assert(s.drop_first().subrange(k - 1, s.len() - 1) =~~= s.subrange(k, s.len() as int));
    }
}

/// If every character from `k` on is whitespace and the one before `k` (if
/// any) is not, trimming the end keeps exactly the prefix up to `k`.
pub proof fn lemma_trim_end_at(s: Seq<char>, k: int)
    requires
        0 <= k <= s.len(),
        forall|j: int| k <= j < s.len() ==> is_ws_char(s[j]),
        k == 0 || !is_ws_char(s[k - 1]),
    ensures
        spec_trim_end(s) == s.subrange(0, k),
    decreases s.len() - k,
{
    if k == s.len() {
        assert(s.subrange(0, k) =~~= s);
    } else {
        lemma_trim_end_at(s.drop_last(), k);
        assert(s.drop_last().subrange(0, k) =~~= s.subrange(0, k));
    }
}

/// Removes leading and trailing whitespace from `s`.
pub fn trim(s: &str) -> (r: String)
    ensures
        r@ == spec_trim(s@),
{
    let n = s.unicode_len();
    let mut lo: usize = 0;
    while lo < n && char_is_ws(s.get_char(lo))
        invariant
            n == s@.len(),
            0 <= lo <= n,
            forall|j: int| 0 <= j < lo ==> is_ws_char(s@[j]),
        decreases n - lo,
    {
        lo += 1;
    }
    let mut hi: usize = n;
    while hi > lo && char_is_ws(s.get_char(hi - 1))
        invariant
            n == s@.len(),
            lo <= hi <= n,
            forall|j: int| hi <= j < n ==> is_ws_char(s@[j]),
        decreases hi,
    {
        hi -= 1;
    }
    proof {
        lemma_trim_start_at(s@, lo as int);
        let t = s@.subrange(lo as int, n as int);
        assert(forall|j: int| hi - lo <= j < t.len() ==> is_ws_char(t[j]));
        lemma_trim_end_at(t, hi - lo);
        assert(t.subrange(0, hi - lo) =~~= s@.subrange(lo as int, hi as int));
    }
    s.substring_char(lo, hi).to_owned()
}

/// The pieces interleaved with the separator, in the sense of `join`.
pub open spec fn spec_join(parts: Seq<Seq<char>>, sep: Seq<char>) -> Seq<char>
    decreases parts.len(),
{
    if parts.len() == 0 {
        Seq::<char>::empty()
    } else if parts.len() == 1 {
        parts[0]
    } else {
        parts[0] + sep + spec_join(parts.drop_first(), sep)
    }
}

/// Joining one more piece appends a separator and the piece.
pub proof fn lemma_join_push(parts: Seq<Seq<char>>, sep: Seq<char>, x: Seq<char>)
    requires
        parts.len() >= 1,
    ensures
        spec_join(parts.push(x), sep) == spec_join(parts, sep) + sep + x,
    decreases parts.len(),
{
    if parts.len() == 1 {
        let p = parts.push(x);
        assert(p.len() == 2);
        assert(p.drop_first() =~~= seq![x]);
        assert(spec_join(p, sep) == p[0] + sep + spec_join(p.drop_first(), sep));
        assert(spec_join(parts, sep) + sep + x =~~= parts[0] + sep + x);
        assert(spec_join(p, sep) =~~= parts[0] + sep + x);
    } else {
        lemma_join_push(parts.drop_first(), sep, x);
        assert(parts.push(x).drop_first() =~~= parts.drop_first().push(x));
        assert(spec_join(parts.push(x), sep) =~~= spec_join(parts, sep) + sep + x);
    }
}

/// Joins `parts` with `sep` between consecutive pieces.
pub fn join_with(parts: &Vec<String>, sep: &str) -> (r: String)
    ensures
        r@ == spec_join(parts.deep_view(), sep@),
{
    let mut out = String::new();
    let n = parts.len();
    if n == 0 {
        return out;
    }
    out.append(parts[0].as_str());
    let mut i: usize = 1;
    while i < n
        invariant
            n == parts@.len(),
            1 <= i <= n,
            out@ == spec_join(parts.deep_view().take(i as int), sep@),
        decreases n - i,
    {
        out.append(sep);
        out.append(parts[i].as_str());
        proof {
            let dv = parts.deep_view();
            lemma_join_push(dv.take(i as int), sep@, dv[i as int]);
            assert(dv.take(i + 1) =~~= dv.take(i as int).push(dv[i as int]));
        }
        i += 1;
    }
    proof {
        assert(parts.deep_view().take(n as int) =~~= parts.deep_view());
    }
    out
}

} // verus!
