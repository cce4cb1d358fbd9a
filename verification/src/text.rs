//! Small verified string utilities: character-wise equality of string
//! slices and extraction of the last `/`-separated segment of a path.

use vstd::prelude::*;

verus! {

/// True character-for-character equality of two string slices.
pub fn str_eq(a: &str, b: &str) -> (r: bool)
    ensures
        r == (a@ == b@),
{
    let alen = a.unicode_len();
    let blen = b.unicode_len();
    if alen != blen {
        return false;
    }
    let mut i: usize = 0;
    while i < alen
        invariant
            alen == a@.len(),
            blen == b@.len(),
            alen == blen,
            i <= alen,
            forall|j: int| 0 <= j < i ==> a@[j] == b@[j],
        decreases alen - i,
    {
        if a.get_char(i) != b.get_char(i) {
            return false;
        }
        i = i + 1;
    }
    proof {
        assert(a@ =~= b@);
    }
    true
}

/// The suffix of `s` after its last `/`; `s` itself when it holds no `/`.
pub open spec fn spec_last_segment(s: Seq<char>) -> Seq<char>
    decreases s.len(),
{
    if s.len() == 0 {
        s
    } else if s[s.len() - 1] == '/' {
        Seq::<char>::empty()
    } else {
        spec_last_segment(s.drop_last()).push(s.last())
    }
}

/// Law: a string without any `/` is its own last segment, so a target id
/// holding no `/` names the resource unchanged.
pub proof fn lemma_last_segment_no_slash(s: Seq<char>)
    requires
        forall|j: int| 0 <= j < s.len() ==> s[j] != '/',
    ensures
        spec_last_segment(s) == s,
    decreases s.len(),
{
    if s.len() == 0 {
        assert(spec_last_segment(s) =~= s);
    } else {
        lemma_last_segment_no_slash(s.drop_last());
        assert(spec_last_segment(s) =~= s);
    }
}

proof fn lemma_last_segment_after_slash(s: Seq<char>, k: int)
    requires
        0 <= k < s.len(),
        s[k] == '/',
        forall|j: int| k < j < s.len() ==> s[j] != '/',
    ensures
        spec_last_segment(s) == s.subrange(k + 1, s.len() as int),
    decreases s.len(),
{
    if k == s.len() - 1 {
        assert(spec_last_segment(s) =~= s.subrange(k + 1, s.len() as int));
    } else {
        lemma_last_segment_after_slash(s.drop_last(), k);
        assert(s.drop_last().subrange(k + 1, s.len() - 1) =~= s.subrange(k + 1, s.len() - 1));
        assert(spec_last_segment(s) =~= s.subrange(k + 1, s.len() as int));
    }
}

/// The substring of `s` after the last `/`, or `s` itself when it holds none.
pub fn last_segment(s: &str) -> (r: &str)
    ensures
        r@ == spec_last_segment(s@),
{
    let n = s.unicode_len();
    let mut i: usize = n;
    while i > 0
        invariant
            n == s@.len(),
            i <= n,
            forall|j: int| i <= j < n ==> s@[j] != '/',
        decreases i,
    {
        if s.get_char(i - 1) == '/' {
            let r = s.substring_char(i, n);
            proof {
                lemma_last_segment_after_slash(s@, i - 1);
            }
            return r;
        }
        i = i - 1;
    }
    proof {
        lemma_last_segment_no_slash(s@);
        assert(s@.subrange(0, n as int) =~= s@);
    }
    s.substring_char(0, n)
}

} // verus!
