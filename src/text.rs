//! Character-level comparisons of strings.
use vstd::prelude::*;

verus! {

/// `p` is a prefix of `s`.
pub open spec fn is_prefix(p: Seq<char>, s: Seq<char>) -> bool {
    p.len() <= s.len() && s.subrange(0, p.len() as int) == p
}

/// `n` occurs in `h` at position `k`.
pub open spec fn occurs_at(n: Seq<char>, h: Seq<char>, k: int) -> bool {
    0 <= k && k + n.len() <= h.len() && h.subrange(k, k + n.len()) == n
}

/// `n` occurs somewhere in `h`.
pub open spec fn contains(h: Seq<char>, n: Seq<char>) -> bool {
    exists|k: int| occurs_at(n, h, k)
}

/// The characters of `s`.
pub fn chars_of(s: &str) -> (r: Vec<char>)
    ensures
        r@ == s@,
{
    let n = s.unicode_len();
    let mut r: Vec<char> = Vec::new();
    let mut i: usize = 0;
    while i < n
        invariant
            n == s@.len(),
            i <= n,
            r@ == s@.subrange(0, i as int),
        decreases n - i,
    {
        r.push(s.get_char(i));
        i = i + 1;
    }
    r
}

/// Whether `n` occurs in `h` at position `k`.
fn matches_at(n: &Vec<char>, h: &Vec<char>, k: usize) -> (r: bool)
    ensures
        r == occurs_at(n@, h@, k as int),
{
    if k > h.len() || n.len() > h.len() - k {
        return false;
    }
    let hl = h.len();
    let mut j: usize = 0;
    while j < n.len()
        invariant
            hl == h@.len(),
            k + n@.len() <= h@.len(),
            j <= n@.len(),
            forall|m: int| 0 <= m < j ==> h@[k + m] == n@[m],
        decreases n.len() - j,
    {
        assert(k + j < h@.len());
        if h[k + j] != n[j] {
            assert(h@.subrange(k as int, k + n@.len())[j as int] != n@[j as int]);
            return false;
        }
        j = j + 1;
    }
    assert(h@.subrange(k as int, k + n@.len()) =~= n@);
    true
}

/// Whether `a` and `b` hold the same characters.
pub fn str_eq(a: &str, b: &str) -> (r: bool)
    ensures
        r == (a@ == b@),
{
    let x = chars_of(a);
    let y = chars_of(b);
    if x.len() != y.len() {
        return false;
    }
    let r = matches_at(&x, &y, 0);
    assert(y@.subrange(0, x@.len() as int) =~= y@);
    r
}

/// Whether `s` starts with `p`.
pub fn starts_with(s: &str, p: &str) -> (r: bool)
    ensures
        r == is_prefix(p@, s@),
{
    let x = chars_of(s);
    let y = chars_of(p);
    matches_at(&y, &x, 0)
}

/// Whether `n` occurs in `h`.
pub fn str_contains(h: &str, n: &str) -> (r: bool)
    ensures
        r == contains(h@, n@),
{
    let hs = chars_of(h);
    let ns = chars_of(n);
    if ns.len() > hs.len() {
        assert forall|k: int| !occurs_at(ns@, hs@, k) by {}
        return false;
    }
    let last = hs.len() - ns.len();
    let mut k: usize = 0;
    while k < last
        invariant
            last == hs@.len() - ns@.len(),
            k <= last,
            hs@ == h@,
            ns@ == n@,
            forall|m: int| 0 <= m < k ==> !occurs_at(ns@, hs@, m),
        decreases last - k,
    {
        if matches_at(&ns, &hs, k) {
            return true;
        }
        k = k + 1;
    }
    let r = matches_at(&ns, &hs, last);
    assert(!r ==> forall|m: int| !occurs_at(ns@, hs@, m)) by {
        if !r {
            assert forall|m: int| !occurs_at(ns@, hs@, m) by {
                if 0 <= m && m + ns@.len() <= hs@.len() {
                    assert(m <= last);
                }
            }
        }
    }
    r
}

} // verus!
