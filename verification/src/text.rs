//! Small verified operations on identifier text. Identifiers cross this
//! library as vectors of characters, so prefix tests, suffix tests and concatenation
//! are all that the naming logic needs.

use vstd::prelude::*;
use vstd::string::StrSliceExecFns;

verus! {

/// Copies the characters of a text slice into a vector.
pub fn str_chars(s: &str) -> (r: Vec<char>)
    ensures
        r@ == s@,
{
    let n = s.unicode_len();
    let mut r: Vec<char> = Vec::new();
    let mut i: usize = 0;
    while i < n
        invariant
            i <= n == s@.len(),
            r@ == s@.subrange(0, i as int),
        decreases n - i,
    {
        r.push(s.get_char(i));
        proof {
            assert(r@ =~= s@.subrange(0, i + 1 as int));
        }
        i += 1;
    }
    proof {
        assert(r@ =~= s@);
    }
    r
}

/// `p` stands at the front of `s`.
pub open spec fn is_prefix_of(p: Seq<char>, s: Seq<char>) -> bool {
    p.len() <= s.len() && p == s.subrange(0, p.len() as int)
}

/// `p` stands at the back of `s`.
pub open spec fn is_suffix_of(p: Seq<char>, s: Seq<char>) -> bool {
    p.len() <= s.len() && p == s.subrange(s.len() - p.len(), s.len() as int)
}

/// Does `s` begin with `p`?
pub fn starts_with(s: &Vec<char>, p: &Vec<char>) -> (r: bool)
    ensures
        r == is_prefix_of(p@, s@),
{
    if p.len() > s.len() {
        return false;
    }
    let ghost sub = s@.subrange(0, p@.len() as int);
    let mut i: usize = 0;
    while i < p.len()
        invariant
            i <= p@.len() <= s@.len(),
            sub == s@.subrange(0, p@.len() as int),
            forall|j: int| 0 <= j < i ==> s@[j] == p@[j],
        decreases p@.len() - i,
    {
        if s[i] != p[i] {
            proof {
                assert(sub[i as int] == s@[i as int]);
            }
            return false;
        }
        i += 1;
    }
    proof {
        assert(p@ =~= sub);
    }
    true
}

/// Does `s` end with `p`?
pub fn ends_with(s: &Vec<char>, p: &Vec<char>) -> (r: bool)
    ensures
        r == is_suffix_of(p@, s@),
{
    if p.len() > s.len() {
        return false;
    }
    let offset: usize = s.len() - p.len();
    let ghost sub = s@.subrange(s@.len() - p@.len(), s@.len() as int);
    let mut i: usize = 0;
    while i < p.len()
        invariant
            i <= p@.len() <= s@.len() <= usize::MAX,
            offset == s@.len() - p@.len(),
            sub == s@.subrange(s@.len() - p@.len(), s@.len() as int),
            forall|j: int| 0 <= j < i ==> s@[offset + j] == p@[j],
        decreases p@.len() - i,
    {
        if s[offset + i] != p[i] {
            proof {
                assert(sub[i as int] == s@[offset + i]);
            }
            return false;
        }
        i += 1;
    }
    proof {
        assert(p@ =~= sub);
    }
    true
}

/// Do `a` and `b` hold the same characters?
pub fn chars_equal(a: &Vec<char>, b: &Vec<char>) -> (r: bool)
    ensures
        r == (a@ == b@),
{
    if a.len() != b.len() {
        return false;
    }
    let mut i: usize = 0;
    while i < a.len()
        invariant
            i <= a@.len() == b@.len(),
            forall|j: int| 0 <= j < i ==> a@[j] == b@[j],
        decreases a@.len() - i,
    {
        if a[i] != b[i] {
            return false;
        }
        i += 1;
    }
    proof {
        assert(a@ =~= b@);
    }
    true
}

/// Copies the characters of `s` into a fresh vector.
pub fn copy_chars(s: &Vec<char>) -> (r: Vec<char>)
    ensures
        r@ == s@,
{
    let mut r: Vec<char> = Vec::new();
    let mut i: usize = 0;
    while i < s.len()
        invariant
            i <= s@.len(),
            r@ == s@.subrange(0, i as int),
        decreases s@.len() - i,
    {
        r.push(s[i]);
        proof {
            assert(r@ =~= s@.subrange(0, i + 1 as int));
        }
        i += 1;
    }
    proof {
        assert(r@ =~= s@);
    }
    r
}

/// Appends the characters of `tail` to `head`.
pub fn append_chars(head: &mut Vec<char>, tail: &Vec<char>)
    ensures
        final(head)@ == old(head)@ + tail@,
{
    let mut i: usize = 0;
    while i < tail.len()
        invariant
            i <= tail@.len(),
            head@ == old(head)@ + tail@.subrange(0, i as int),
        decreases tail@.len() - i,
    {
        head.push(tail[i]);
        proof {
            assert(head@ =~= old(head)@ + tail@.subrange(0, i + 1 as int));
        }
        i += 1;
    }
    proof {
        assert(head@ =~= old(head)@ + tail@);
    }
}

} // verus!
