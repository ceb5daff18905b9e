use vstd::prelude::*;

verus! {

/// Whether `suffix` is a suffix of `s`.
pub open spec fn is_suffix_of(suffix: Seq<char>, s: Seq<char>) -> bool {
    suffix.len() <= s.len() && s.subrange(s.len() - suffix.len(), s.len() as int) == suffix
}

/// Whether `prefix` is a prefix of `s`.
pub open spec fn is_prefix_of(prefix: Seq<char>, s: Seq<char>) -> bool {
    prefix.len() <= s.len() && s.subrange(0, prefix.len() as int) == prefix
}

/// Whether `needle` occurs somewhere inside `hay`.
pub open spec fn contains_seq(hay: Seq<char>, needle: Seq<char>) -> bool {
    exists|i: int|
        0 <= i && i + needle.len() <= hay.len() && #[trigger] hay.subrange(
            i,
            i + needle.len(),
        ) == needle
}

/// Character-for-character string equality, stated over the views.
pub fn str_eq(a: &str, b: &str) -> (r: bool)
    ensures
        r == (a@ == b@),
{
    let alen = a.unicode_len();
    let blen = b.unicode_len();
    if alen != blen {
        return false;
    }
    let mut i: usize = 0;
    while i < alen
        invariant
            alen == a@.len(),
            blen == b@.len(),
            alen == blen,
            i <= alen,
            forall|j: int| 0 <= j < i ==> a@[j] == b@[j],
        decreases alen - i,
    {
        if a.get_char(i) != b.get_char(i) {
            return false;
        }
        i += 1;
    }
    proof {
        assert(a@ =~= b@);
    }
    true
}

/// Whether `s` ends with `suffix`, stated over the views.
pub fn str_ends_with(s: &str, suffix: &str) -> (r: bool)
    ensures
        r == is_suffix_of(suffix@, s@),
{
    let slen = s.unicode_len();
    let xlen = suffix.unicode_len();
    if xlen > slen {
        return false;
    }
    let start = slen - xlen;
    let mut i: usize = 0;
    while i < xlen
        invariant
            slen == s@.len(),
            xlen == suffix@.len(),
            xlen <= slen,
            start == slen - xlen,
            i <= xlen,
            forall|j: int| 0 <= j < i ==> s@[start + j] == suffix@[j],
        decreases xlen - i,
    {
        if s.get_char(start + i) != suffix.get_char(i) {
            proof {
                assert(s@.subrange(s@.len() - suffix@.len(), s@.len() as int)[i as int]
                    == s@[start + i]);
            }
            return false;
        }
        i += 1;
    }
    proof {
        assert(s@.subrange(s@.len() - suffix@.len(), s@.len() as int) =~= suffix@);
    }
    true
}

/// Whether `s` starts with `prefix`, stated over the views.
pub fn str_starts_with(s: &str, prefix: &str) -> (r: bool)
    ensures
        r == is_prefix_of(prefix@, s@),
{
    let slen = s.unicode_len();
    let plen = prefix.unicode_len();
    if plen > slen {
        return false;
    }
    let mut i: usize = 0;
    while i < plen
        invariant
            slen == s@.len(),
            plen == prefix@.len(),
            plen <= slen,
            i <= plen,
            forall|j: int| 0 <= j < i ==> s@[j] == prefix@[j],
        decreases plen - i,
    {
        if s.get_char(i) != prefix.get_char(i) {
            proof {
                assert(s@.subrange(0, prefix@.len() as int)[i as int] == s@[i as int]);
            }
            return false;
        }
        i += 1;
    }
    proof {
        assert(s@.subrange(0, prefix@.len() as int) =~= prefix@);
    }
    true
}

} // verus!
