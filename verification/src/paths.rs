//! Path and string helpers shared by the listing, file-operation and
//! share components: last-component extraction (file names and file
//! extensions), path joining, and the normalization applied to a
//! listing root.

use vstd::prelude::*;

verus! {

/// The part of `s` after its last occurrence of `sep`: the whole of
/// `s` when `sep` does not occur, and empty when `s` ends with `sep`.
pub open spec fn last_component_of(s: Seq<char>, sep: char) -> Seq<char>
    decreases s.len(),
{
    if s.len() == 0 {
        s
    } else if s.last() == sep {
        Seq::<char>::empty()
    } else {
        last_component_of(s.drop_last(), sep).push(s.last())
    }
}

/// When no separator occurs at or after `start`, and `start` sits just
/// past a separator (or at the very beginning), the last component is
/// exactly the suffix from `start`.
proof fn lemma_last_component_suffix(s: Seq<char>, sep: char, start: int)
    requires
        0 <= start <= s.len(),
        start > 0 ==> s[start - 1] == sep,
        forall|k: int| start <= k < s.len() ==> s[k] != sep,
    ensures
        last_component_of(s, sep) == s.subrange(start, s.len() as int),
    decreases s.len(),
{
    if s.len() == 0 {
        assert(last_component_of(s, sep) =~= s.subrange(0, 0));
    } else if start == s.len() {
        assert(s.last() == sep);
        assert(last_component_of(s, sep) =~= s.subrange(start, s.len() as int));
    } else {
        assert(s.last() != sep);
        let t = s.drop_last();
        lemma_last_component_suffix(t, sep, start);
        assert(last_component_of(s, sep) =~= s.subrange(start, s.len() as int)) by {
            assert(last_component_of(s, sep) == last_component_of(t, sep).push(s.last()));
            assert(last_component_of(t, sep) == t.subrange(start, t.len() as int));
            assert(t.subrange(start, t.len() as int).push(s.last()) =~= s.subrange(
                start,
                s.len() as int,
            ));
        }
    }
}

/// Character-wise equality of two string slices.
pub fn str_eq(a: &str, b: &str) -> (r: bool)
    ensures
        r == (a@ == b@),
{
    let alen = a.unicode_len();
    let blen = b.unicode_len();
    if alen != blen {
        assert(a@ != b@) by {
            assert(a@.len() != b@.len());
        }
        return false;
    }
    let mut i: usize = 0;
    while i < alen
        invariant
            alen == a@.len(),
            alen == b@.len(),
            0 <= i <= alen,
            forall|k: int| 0 <= k < i ==> a@[k] == b@[k],
        decreases alen - i,
    {
        if a.get_char(i) != b.get_char(i) {
            assert(a@[i as int] != b@[i as int]);
            return false;
        }
        i = i + 1;
    }
    assert(a@ =~= b@);
    true
}

/// The component of `s` after its last `sep`, as an owned string.
pub fn last_component(s: &str, sep: char) -> (r: String)
    ensures
        r@ == last_component_of(s@, sep),
{
    let len = s.unicode_len();
    let mut start: usize = 0;
    let mut i: usize = 0;
    while i < len
        invariant
            len == s@.len(),
            0 <= start <= i <= len,
            start > 0 ==> s@[start - 1] == sep,
            forall|k: int| start <= k < i ==> s@[k] != sep,
        decreases len - i,
    {
        if s.get_char(i) == sep {
            start = i + 1;
        }
        i = i + 1;
    }
    proof {
        lemma_last_component_suffix(s@, sep, start as int);
    }
    let tail = s.substring_char(start, len);
    tail.to_owned()
}

/// The name under which a path's target appears in its parent
/// directory: everything after the last slash.
pub fn file_name_of(path: &str) -> (r: String)
    ensures
        r@ == last_component_of(path@, '/'),
{
    last_component(path, '/')
}

/// `dir`, a slash, and `name`.
pub fn join_path(dir: &str, name: &str) -> (r: String)
    ensures
        r@ == dir@ + "/"@ + name@,
{
    let mut r = dir.to_owned();
    r.append("/");
    r.append(name);
    r
}

/// What a listing request's root path means: the empty path and `"/"`
/// both denote the root of the store.
pub open spec fn normalized_root_of(path: Seq<char>) -> Seq<char> {
    if path == "/"@ || path.len() == 0 {
        "/"@
    } else {
        path
    }
}

/// Normalizes the root path of a listing request.
pub fn normalized_root(path: &String) -> (r: String)
    ensures
        r@ == normalized_root_of(path@),
{
    if str_eq(path.as_str(), "/") || path.as_str().unicode_len() == 0 {
        let r = "/".to_owned();
        r
    } else {
        path.clone()
    }
}

} // verus!
