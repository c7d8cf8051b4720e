//! Path normalization and the path filter.
//!
//! Every path a manifest speaks of is relative to the installation root
//! and uses forward slashes regardless of host conventions. The filter
//! excludes files lying directly at the root and files under any of a
//! configured list of literal path prefixes.

use vstd::prelude::*;
use vstd::string::StrSliceExecFns;
use crate::hashing::string_push;

verus! {

/// Maps a backslash to a forward slash and leaves any other character
/// unchanged.
pub open spec fn normalize_char(c: char) -> char {
    if c == '\\' {
        '/'
    } else {
        c
    }
}

/// A path with every backslash replaced by a forward slash.
pub open spec fn spec_normalized(s: Seq<char>) -> Seq<char> {
    s.map_values(|c: char| normalize_char(c))
}

/// True when a relative path has no directory component: such a file
/// lies directly at the installation root.
pub open spec fn spec_depth_zero(s: Seq<char>) -> bool {
    forall|i: int| 0 <= i < s.len() ==> s[i] != '/'
}

/// A path is excluded when, once slash-normalized, it lies directly at
/// the root or starts with one of the ignored literal prefixes.
pub open spec fn spec_is_ignored(raw: Seq<char>, ignored: Seq<Seq<char>>) -> bool {
    let rel = spec_normalized(raw);
    spec_depth_zero(rel) || (exists|i: int|
        0 <= i < ignored.len() && (#[trigger] ignored[i]).is_prefix_of(rel))
}

/// Replaces every backslash with a forward slash.
pub fn normalize_path(s: &str) -> (r: String)
    ensures
        r@ == spec_normalized(s@),
{
    let mut r = String::new();
    let n = s.unicode_len();
    for i in 0..n
        invariant
            n == s@.len(),
            r@ =~= spec_normalized(s@.take(i as int)),
    {
        let c = s.get_char(i);
        let c2 = if c == '\\' {
            '/'
        } else {
            c
        };
        string_push(&mut r, c2);
        proof {
            assert(spec_normalized(s@.take(i + 1)) =~= spec_normalized(s@.take(i as int)).push(
                normalize_char(s@[i as int]),
            ));
        }
    }
    proof {
        assert(s@.take(n as int) =~= s@);
    }
    r
}

/// True when the path contains no forward slash.
pub fn depth_zero(s: &str) -> (r: bool)
    ensures
        r == spec_depth_zero(s@),
{
    let n = s.unicode_len();
    for i in 0..n
        invariant
            n == s@.len(),
            forall|j: int| 0 <= j < i ==> s@[j] != '/',
    {
        if s.get_char(i) == '/' {
            return false;
        }
    }
    true
}

/// True when `prefix` is a prefix of `s`, character for character.
pub fn str_starts_with(s: &str, prefix: &str) -> (r: bool)
    ensures
        r == prefix@.is_prefix_of(s@),
{
    let pn = prefix.unicode_len();
    let sn = s.unicode_len();
    if pn > sn {
        return false;
    }
    for i in 0..pn
        invariant
            pn == prefix@.len(),
            sn == s@.len(),
            pn <= sn,
            forall|j: int| 0 <= j < i ==> s@[j] == prefix@[j],
    {
        if s.get_char(i) != prefix.get_char(i) {
            proof {
                assert(s@.subrange(0, pn as int)[i as int] == s@[i as int]);
            }
            return false;
        }
    }
    proof {
        assert(prefix@ =~= s@.subrange(0, pn as int));
    }
    true
}

/// True when the two string slices hold the same characters.
pub fn str_eq(a: &str, b: &str) -> (r: bool)
    ensures
        r == (a@ == b@),
{
    let an = a.unicode_len();
    let bn = b.unicode_len();
    if an != bn {
        return false;
    }
    for i in 0..an
        invariant
            an == a@.len(),
            bn == b@.len(),
            an == bn,
            forall|j: int| 0 <= j < i ==> a@[j] == b@[j],
    {
        if a.get_char(i) != b.get_char(i) {
            return false;
        }
    }
    proof {
        assert(a@ =~= b@);
    }
    true
}

/// Decides whether a root-relative path is excluded from manifest
/// generation and update checking: true when the normalized path lies
/// directly at the root, or starts with one of the ignored prefixes.
pub fn is_ignored(raw_rel_path: &str, ignored: &Vec<String>) -> (r: bool)
    ensures
        r == spec_is_ignored(raw_rel_path@, ignored.deep_view()),
{
    let rel = normalize_path(raw_rel_path);
    if depth_zero(rel.as_str()) {
        return true;
    }
    let n = ignored.len();
    for i in 0..n
        invariant
            n == ignored.len(),
            rel@ == spec_normalized(raw_rel_path@),
            forall|j: int|
                0 <= j < i ==> !(#[trigger] ignored.deep_view()[j]).is_prefix_of(rel@),
    {
        if str_starts_with(rel.as_str(), ignored[i].as_str()) {
            proof {
                assert(ignored.deep_view()[i as int] == ignored@[i as int]@);
            }
            return true;
        }
        proof {
            assert(ignored.deep_view()[i as int] == ignored@[i as int]@);
        }
    }
    false
}

} // verus!
