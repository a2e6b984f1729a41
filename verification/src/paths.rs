//! Paths as texts whose segments are separated by `/`.
//!
//! A path here is a plain string. The functions of this module find segment
//! boundaries, join two paths and cut a path, and say what they compute over
//! the characters of their arguments.

use crate::text::{chars_of, string_of};
use vstd::prelude::*;

verus! {

/// The index of the first `/` of `s` at or after `from`, or the length of `s`
/// where there is none.
pub open spec fn next_sep(s: Seq<char>, from: int) -> int
    decreases s.len() - from,
{
    if from < 0 || from >= s.len() {
        s.len() as int
    } else if s[from] == '/' {
        from
    } else {
        next_sep(s, from + 1)
    }
}

/// `next_sep` lies between `from` and the end, skips no separator, and stops
/// on one unless it reaches the end.
pub proof fn lemma_next_sep(s: Seq<char>, from: int)
    requires
        0 <= from <= s.len(),
    ensures
        from <= next_sep(s, from) <= s.len(),
        next_sep(s, from) < s.len() ==> s[next_sep(s, from)] == '/',
        forall|j: int| from <= j < next_sep(s, from) ==> s[j] != '/',
    decreases s.len() - from,
{
    if from < s.len() && s[from] != '/' {
        lemma_next_sep(s, from + 1);
    }
}

/// An index that no separator comes before, and that holds one or is the end,
/// is `next_sep`.
pub proof fn lemma_next_sep_unique(s: Seq<char>, from: int, k: int)
    requires
        0 <= from <= k <= s.len(),
        forall|j: int| from <= j < k ==> s[j] != '/',
        k < s.len() ==> s[k] == '/',
    ensures
        next_sep(s, from) == k,
    decreases k - from,
{
    if from < k {
        lemma_next_sep_unique(s, from + 1, k);
    }
}

/// `root` with `rel` below it. An absolute `rel` stands alone, as does any
/// `rel` under the empty root; otherwise the two are joined by one `/`, which
/// is not doubled where `root` already ends in one.
pub open spec fn join_path(root: Seq<char>, rel: Seq<char>) -> Seq<char> {
    if rel.len() > 0 && rel[0] == '/' {
        rel
    } else if root.len() == 0 {
        rel
    } else if root.last() == '/' {
        root + rel
    } else {
        root.push('/') + rel
    }
}

/// Finds the first `/` of `v` at or after `from`.
pub(crate) fn find_separator(v: &Vec<char>, from: usize) -> (k: usize)
    requires
        from <= v.len(),
    ensures
        k == next_sep(v@, from as int),
        from <= k <= v.len(),
{
    let mut k: usize = from;
    while k < v.len() && v[k] != '/'
        invariant
            from <= k <= v.len(),
            forall|j: int| from <= j < k ==> v@[j] != '/',
        decreases v.len() - k,
    {
        k += 1;
    }
    proof {
        lemma_next_sep_unique(v@, from as int, k as int);
    }
    k
}

/// Whether the characters of `v` from `from` up to `to` are those of `w`.
pub(crate) fn range_equals(v: &Vec<char>, from: usize, to: usize, w: &Vec<char>) -> (same: bool)
    requires
        from <= to <= v.len(),
    ensures
        same == (v@.subrange(from as int, to as int) == w@),
{
    if to - from != w.len() {
        return false;
    }
    let mut i: usize = 0;
    while i < w.len()
        invariant
            from <= to <= v.len(),
            to - from == w.len(),
            i <= w.len(),
            forall|j: int| 0 <= j < i ==> v@[from + j] == w@[j],
        decreases w.len() - i,
    {
        if v[from + i] != w[i] {
            assert(v@.subrange(from as int, to as int)[i as int] != w@[i as int]);
            return false;
        }
        i += 1;
    }
    assert(v@.subrange(from as int, to as int) =~= w@);
    true
}

/// Appends the characters of `tail` from `from` on to `out`.
pub(crate) fn extend_from(out: &mut Vec<char>, tail: &Vec<char>, from: usize)
    requires
        from <= tail.len(),
    ensures
        final(out)@ == old(out)@ + tail@.skip(from as int),
{
    let mut i: usize = from;
    while i < tail.len()
        invariant
            from <= i <= tail.len(),
            out@ == old(out)@ + tail@.subrange(from as int, i as int),
        decreases tail.len() - i,
    {
        out.push(tail[i]);
        i += 1;
        assert(out@ =~= old(out)@ + tail@.subrange(from as int, i as int));
    }
    assert(tail@.subrange(from as int, tail.len() as int) =~= tail@.skip(from as int));
}

/// Joins the part of `rel` from `from` on below `root`.
pub(crate) fn join_chars(root: &Vec<char>, rel: &Vec<char>, from: usize) -> (joined: Vec<char>)
    requires
        from <= rel.len(),
    ensures
        joined@ == join_path(root@, rel@.skip(from as int)),
{
    let mut joined: Vec<char> = Vec::new();
    let absolute = from < rel.len() && rel[from] == '/';
    if !absolute && root.len() > 0 {
        extend_from(&mut joined, root, 0);
        assert(joined@ =~= root@);
        if root[root.len() - 1] != '/' {
            joined.push('/');
        }
    }
    extend_from(&mut joined, rel, from);
    joined
}

/// The length of `s` without what counts for nothing at its end: separators,
/// and a `.` that follows a separator.
pub open spec fn trimmed_len(s: Seq<char>) -> int
    decreases s.len(),
{
    if s.len() > 0 && s.last() == '/' {
        trimmed_len(s.drop_last())
    } else if s.len() >= 2 && s.last() == '.' && s[s.len() - 2] == '/' {
        trimmed_len(s.drop_last())
    } else {
        s.len() as int
    }
}

/// The index of the first character of `s` at or after `from` with which a
/// segment that counts begins: separators are passed over, and so is a `.`
/// that is a segment of its own.
pub open spec fn past_separators(s: Seq<char>, from: int) -> int
    decreases s.len() - from,
{
    if from < 0 || from >= s.len() {
        s.len() as int
    } else if s[from] == '/' {
        past_separators(s, from + 1)
    } else if s[from] == '.' && (from + 1 == s.len() || s[from + 1] == '/') {
        past_separators(s, from + 1)
    } else {
        from
    }
}

/// A relative path without what counts for nothing at its two ends: the
/// separators and `.` segments in front of its first segment and behind its
/// last. A path without a segment that counts has the empty path for it.
pub open spec fn bare(s: Seq<char>) -> Seq<char> {
    let from = past_separators(s, 0);
    let to = trimmed_len(s);
    if from < to {
        s.subrange(from, to)
    } else {
        Seq::empty()
    }
}

/// `past_separators` lies between `from` and the end, and does not pass a
/// character that is neither a separator nor a `.` segment of its own.
pub proof fn lemma_past_separators(s: Seq<char>, from: int, k: int)
    requires
        0 <= from <= k < s.len(),
        s[k] != '/',
        !(s[k] == '.' && (k + 1 == s.len() || s[k + 1] == '/')),
    ensures
        from <= past_separators(s, from) <= k,
    decreases k - from,
{
    if from < k && (s[from] == '/' || (s[from] == '.' && s[from + 1] == '/')) {
        lemma_past_separators(s, from + 1, k);
    }
}

/// Whether a path begins and ends with a segment that counts: it is not
/// empty, neither a separator nor a `.` segment stands at its front, and
/// neither stands at its end.
pub open spec fn is_plain(s: Seq<char>) -> bool {
    &&& s.len() > 0
    &&& s[0] != '/'
    &&& !(s[0] == '.' && (s.len() == 1 || s[1] == '/'))
    &&& s.last() != '/'
    &&& !(s.last() == '.' && s.len() >= 2 && s[s.len() - 2] == '/')
}

/// A path that begins and ends with a segment that counts is bare already.
pub proof fn lemma_bare_of_plain(s: Seq<char>)
    requires
        is_plain(s),
    ensures
        bare(s) == s,
{
    assert(s.subrange(0, s.len() as int) =~= s);
}

/// The index at which the segment that ends before `end` begins: the index
/// after the last separator before `end`, and zero where there is none.
pub open spec fn segment_start(s: Seq<char>, end: int) -> int
    decreases end,
{
    if end <= 0 || end > s.len() {
        0
    } else if s[end - 1] == '/' {
        end
    } else {
        segment_start(s, end - 1)
    }
}

/// The last segment of a path, separators and `/.` at the end of the path
/// aside. A path without segments has none, and `.` and `..` do not count as
/// one.
pub open spec fn file_name_of(path: Seq<char>) -> Option<Seq<char>> {
    let end = trimmed_len(path);
    let name = path.subrange(segment_start(path, end), end);
    if name.len() == 0 || name == "."@ || name == ".."@ {
        None
    } else {
        Some(name)
    }
}

/// The path without its last segment: the root `/` for a segment directly
/// below the root, the empty path for a single relative segment, and nothing
/// for the root and for the empty path.
pub open spec fn parent_of(path: Seq<char>) -> Option<Seq<char>> {
    let end = trimmed_len(path);
    let start = segment_start(path, end);
    if end == 0 {
        None
    } else if start == 0 {
        Some(Seq::empty())
    } else if trimmed_len(path.take(start)) == 0 {
        Some(path.take(1))
    } else {
        Some(path.take(trimmed_len(path.take(start))))
    }
}

proof fn lemma_segment_start(s: Seq<char>, end: int)
    requires
        0 <= end <= s.len(),
    ensures
        0 <= segment_start(s, end) <= end,
        segment_start(s, end) > 0 ==> s[segment_start(s, end) - 1] == '/',
    decreases end,
{
    if end > 0 && s[end - 1] != '/' {
        lemma_segment_start(s, end - 1);
    }
}

pub(crate) fn trim_end(v: &Vec<char>, len: usize) -> (end: usize)
    requires
        len <= v.len(),
    ensures
        end == trimmed_len(v@.take(len as int)),
        end <= len,
        end > 0 ==> v@[end - 1] != '/',
{
    let mut end: usize = len;
    while end > 0 && (v[end - 1] == '/' || (end >= 2 && v[end - 1] == '.' && v[end - 2] == '/'))
        invariant
            end <= len <= v.len(),
            trimmed_len(v@.take(end as int)) == trimmed_len(v@.take(len as int)),
        decreases end,
    {
        assert(v@.take(end as int).drop_last() =~= v@.take(end - 1));
        end -= 1;
    }
    end
}

fn find_segment_start(v: &Vec<char>, end: usize) -> (start: usize)
    requires
        end <= v.len(),
    ensures
        start == segment_start(v@, end as int),
        start <= end,
{
    let mut start: usize = end;
    while start > 0 && v[start - 1] != '/'
        invariant
            start <= end <= v.len(),
            segment_start(v@, start as int) == segment_start(v@, end as int),
        decreases start,
    {
        start -= 1;
    }
    start
}

pub(crate) fn subvec(v: &Vec<char>, from: usize, to: usize) -> (part: Vec<char>)
    requires
        from <= to <= v.len(),
    ensures
        part@ == v@.subrange(from as int, to as int),
{
    let mut part: Vec<char> = Vec::new();
    let mut i: usize = from;
    while i < to
        invariant
            from <= i <= to <= v.len(),
            part@ == v@.subrange(from as int, i as int),
        decreases to - i,
    {
        part.push(v[i]);
        i += 1;
        assert(part@ =~= v@.subrange(from as int, i as int));
    }
    part
}

fn pass_separators(v: &Vec<char>) -> (from: usize)
    ensures
        from == past_separators(v@, 0),
        from <= v.len(),
{
    let mut from: usize = 0;
    while from < v.len() && (v[from] == '/' || (v[from] == '.' && (from + 1 == v.len() || v[from
        + 1] == '/')))
        invariant
            from <= v.len(),
            past_separators(v@, from as int) == past_separators(v@, 0),
        decreases v.len() - from,
    {
        from += 1;
    }
    from
}

/// Cuts a relative path down to its bare form.
pub(crate) fn bare_chars(v: &Vec<char>) -> (kept: Vec<char>)
    ensures
        kept@ == bare(v@),
{
    let from = pass_separators(v);
    assert(v@.take(v.len() as int) =~= v@);
    let to = trim_end(v, v.len());
    if from < to {
        subvec(v, from, to)
    } else {
        Vec::new()
    }
}

/// The last segment of a path, if it has one.
pub fn file_name(path: &str) -> (name: Option<String>)
    ensures
        match name {
            Some(text) => file_name_of(path@) == Some(text@),
            None => file_name_of(path@) is None,
        },
{
    proof {
        reveal_strlit(".");
        reveal_strlit("..");
    }
    let v = chars_of(path);
    assert(v@.take(v.len() as int) =~= v@);
    let end = trim_end(&v, v.len());
    let start = find_segment_start(&v, end);
    let name = subvec(&v, start, end);
    if name.len() == 0 || range_equals(&name, 0, name.len(), &chars_of(".")) || range_equals(
        &name,
        0,
        name.len(),
        &chars_of(".."),
    ) {
        assert(name@.subrange(0, name.len() as int) =~= name@);
        None
    } else {
        assert(name@.subrange(0, name.len() as int) =~= name@);
        Some(string_of(&name))
    }
}

/// The path without its last segment, if it has one. The parent is shorter
/// than the path, so that going up from parent to parent comes to an end.
pub fn parent_dir(path: &str) -> (parent: Option<String>)
    ensures
        match parent {
            Some(text) => parent_of(path@) == Some(text@) && text@.len() < path@.len(),
            None => parent_of(path@) is None,
        },
{
    let v = chars_of(path);
    assert(v@.take(v.len() as int) =~= v@);
    let end = trim_end(&v, v.len());
    if end == 0 {
        return None;
    }
    let start = find_segment_start(&v, end);
    proof {
        lemma_segment_start(v@, end - 1);
    }
    if start == 0 {
        return Some(String::new());
    }
    let up = trim_end(&v, start);
    let keep = if up == 0 {
        1
    } else {
        up
    };
    let parent = subvec(&v, 0, keep);
    assert(v@.subrange(0, keep as int) =~= v@.take(keep as int));
    Some(string_of(&parent))
}

/// Joins `rel` below `root`.
pub fn join(root: &str, rel: &str) -> (joined: String)
    ensures
        joined@ == join_path(root@, rel@),
{
    let root_chars = chars_of(root);
    let rel_chars = chars_of(rel);
    let joined = join_chars(&root_chars, &rel_chars, 0);
    assert(rel_chars@.skip(0) =~= rel_chars@);
    string_of(&joined)
}

} // verus!
