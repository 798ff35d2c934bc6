//! Splitting a filename into its stem and optional extension, and joining
//! them back. The extension is everything after the last `.`; a name without
//! a `.` is all stem.

use vstd::prelude::*;

verus! {

/// Whether the sequence holds at least one `.`.
pub open spec fn has_dot(s: Seq<char>) -> bool {
    exists|i: int| 0 <= i < s.len() && s[i] == '.'
}

/// Index of the last `.` in the sequence, or -1 when there is none.
pub open spec fn last_dot(s: Seq<char>) -> int
    decreases s.len(),
{
    if s.len() == 0 {
        -1
    } else if s[s.len() - 1] == '.' {
        s.len() - 1
    } else {
        last_dot(s.take(s.len() - 1))
    }
}

/// The stem: everything before the last `.`, or the whole name when there
/// is no `.`.
pub open spec fn spec_stem(s: Seq<char>) -> Seq<char> {
    if last_dot(s) >= 0 {
        s.take(last_dot(s))
    } else {
        s
    }
}

/// The extension: everything after the last `.`, absent when there is no `.`.
pub open spec fn spec_ext(s: Seq<char>) -> Option<Seq<char>> {
    if last_dot(s) >= 0 {
        Some(s.skip(last_dot(s) + 1))
    } else {
        None
    }
}

/// `last_dot` points at the last `.` when one exists, and is -1 otherwise.
proof fn lemma_last_dot(s: Seq<char>)
    ensures
        !has_dot(s) ==> last_dot(s) == -1,
        has_dot(s) ==> 0 <= last_dot(s) < s.len() && s[last_dot(s)] == '.',
        has_dot(s) ==> forall|j: int| last_dot(s) < j < s.len() ==> s[j] != '.',
    decreases s.len(),
{
    if s.len() == 0 {
    } else if s[s.len() - 1] == '.' {
        assert(has_dot(s));
    } else {
        let t = s.take(s.len() - 1);
        lemma_last_dot(t);
        assert(forall|j: int| 0 <= j < t.len() ==> t[j] == s[j]);
        if has_dot(s) {
            let w = choose|i: int| 0 <= i < s.len() && s[i] == '.';
            assert(w < s.len() - 1);
            assert(t[w] == '.');
            assert(has_dot(t));
        }
        if has_dot(t) {
            let w = choose|i: int| 0 <= i < t.len() && t[i] == '.';
            assert(s[w] == '.');
            assert(has_dot(s));
        }
    }
}

/// A position that holds a `.` with none after it is the last dot.
proof fn lemma_last_dot_at(s: Seq<char>, d: int)
    requires
        0 <= d < s.len(),
        s[d] == '.',
        forall|j: int| d < j < s.len() ==> s[j] != '.',
    ensures
        last_dot(s) == d,
    decreases s.len(),
{
    if d == s.len() - 1 {
    } else {
        let t = s.take(s.len() - 1);
        assert(forall|j: int| 0 <= j < t.len() ==> t[j] == s[j]);
        lemma_last_dot_at(t, d);
    }
}

/// A sequence with no `.` anywhere has no last dot.
proof fn lemma_no_dot(s: Seq<char>)
    requires
        forall|j: int| 0 <= j < s.len() ==> s[j] != '.',
    ensures
        last_dot(s) == -1,
{
    lemma_last_dot(s);
    assert(!has_dot(s));
}

/// For a name with at least one `.`, stem, `.` and extension reassemble the
/// original exactly.
pub proof fn lemma_split_preserves_original(s: Seq<char>)
    requires
        has_dot(s),
    ensures
        spec_ext(s) is Some,
        spec_stem(s) + seq!['.'] + spec_ext(s)->Some_0 == s,
{
    lemma_last_dot(s);
    let d = last_dot(s);
    assert(spec_stem(s) + seq!['.'] + spec_ext(s)->Some_0 =~= s);
}

/// For a name without a `.`, the stem is the whole name and the extension
/// is absent.
pub proof fn lemma_split_without_dot(s: Seq<char>)
    requires
        !has_dot(s),
    ensures
        spec_stem(s) == s,
        spec_ext(s) is None,
{
    lemma_last_dot(s);
}

/// Splits a filename on its last `.` into stem and optional extension.
pub fn split_filename(filename: &str) -> (r: (String, Option<String>))
    ensures
        r.0@ == spec_stem(filename@),
        r.1.deep_view() == spec_ext(filename@),
{
    let n = filename.unicode_len();
    let mut i: usize = n;
    while i > 0
        invariant
            n == filename@.len(),
            i <= n,
            forall|j: int| i <= j < n ==> filename@[j] != '.',
        decreases i,
    {
        if filename.get_char(i - 1) == '.' {
            proof {
                lemma_last_dot_at(filename@, i - 1);
            }
            let stem = String::from_str(filename.substring_char(0, i - 1));
            let ext = String::from_str(filename.substring_char(i, n));
            return (stem, Some(ext));
        }
        i = i - 1;
    }
    proof {
        lemma_no_dot(filename@);
    }
    (String::from_str(filename), None)
}

/// Rejoins a stem with an optional extension, putting a `.` between them
/// when the extension is present.
pub open spec fn spec_join(stem: Seq<char>, ext: Option<Seq<char>>) -> Seq<char> {
    match ext {
        Some(e) => stem + seq!['.'] + e,
        None => stem,
    }
}

/// Builds `stem.ext`, or just `stem` when no extension is given.
pub fn join_filename(stem: String, ext: &Option<String>) -> (r: String)
    ensures
        r@ == spec_join(stem@, ext.deep_view()),
{
    match ext {
        Some(e) => {
            proof {
                reveal_strlit(".");
            }
            stem.concat(".").concat(e.as_str())
        },
        None => stem,
    }
}

} // verus!
