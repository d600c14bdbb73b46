//! Character-level string helpers shared by the rest of the library.

use vstd::prelude::*;
use vstd::string::*;

verus! {

/// Appends one character to a `String` (std's `String::push`).
#[verifier::external_body]
pub(crate) fn push_char(s: &mut String, c: char)
    ensures
        final(s)@ == old(s)@.push(c),
{
    s.push(c);
}

/// The characters of a string slice, in order.
pub fn chars_of(s: &str) -> (v: Vec<char>)
    ensures
        v@ == s@,
{
    let n = s.unicode_len();
    let mut v: Vec<char> = Vec::new();
    let mut i: usize = 0;
    while i < n
        invariant
            n == s@.len(),
            i <= n,
            v@ == s@.subrange(0, i as int),
        decreases n - i,
    {
        let c = s.get_char(i);
        v.push(c);
        i = i + 1;
        assert(v@ =~= s@.subrange(0, i as int));
    }
    assert(v@ =~= s@);
    v
}

/// Builds a `String` from a slice of characters.
pub fn string_of(v: &[char]) -> (s: String)
    ensures
        s@ == v@,
{
    let mut s = String::new();
    let mut i: usize = 0;
    while i < v.len()
        invariant
            i <= v@.len(),
            s@ == v@.subrange(0, i as int),
        decreases v@.len() - i,
    {
        push_char(&mut s, v[i]);
        i = i + 1;
        assert(s@ =~= v@.subrange(0, i as int));
    }
    assert(s@ =~= v@);
    s
}

/// A copy of a string slice as an owned `String`.
pub fn owned(s: &str) -> (r: String)
    ensures
        r@ == s@,
{
    s.to_owned()
}

/// The concatenation of two string slices.
pub fn concat2(a: &str, b: &str) -> (r: String)
    ensures
        r@ == a@ + b@,
{
    let mut r = a.to_owned();
    r.append(b);
    r
}

/// The concatenation of three string slices.
pub fn concat3(a: &str, b: &str, c: &str) -> (r: String)
    ensures
        r@ == a@ + b@ + c@,
{
    let mut r = a.to_owned();
    r.append(b);
    r.append(c);
    r
}

/// Whether two string slices hold the same characters.
pub fn str_eq(a: &str, b: &str) -> (r: bool)
    ensures
        r == (a@ == b@),
{
    let x = chars_of(a);
    let y = chars_of(b);
    if x.len() != y.len() {
        return false;
    }
    let mut i: usize = 0;
    while i < x.len()
        invariant
            x@ == a@,
            y@ == b@,
            x@.len() == y@.len(),
            i <= x@.len(),
            forall|j: int| 0 <= j < i ==> x@[j] == y@[j],
        decreases x@.len() - i,
    {
        if x[i] != y[i] {
            return false;
        }
        i = i + 1;
    }
    assert(x@ =~= y@);
    true
}

/// `p` occurs in `s` starting at position `i`.
pub open spec fn occurs_at(s: Seq<char>, p: Seq<char>, i: int) -> bool {
    &&& 0 <= i
    &&& i + p.len() <= s.len()
    &&& s.subrange(i, i + p.len()) == p
}

/// `s` begins with `p`.
pub open spec fn starts_with(s: Seq<char>, p: Seq<char>) -> bool {
    occurs_at(s, p, 0)
}

/// `p` occurs somewhere in `s`.
pub open spec fn contains(s: Seq<char>, p: Seq<char>) -> bool {
    exists|i: int| occurs_at(s, p, i)
}

/// Every occurrence of `p` in `s` replaced by `r`, scanning from the left and
/// never letting two replaced occurrences overlap (what `str::replace` does
/// for a non-empty pattern).
pub open spec fn replace_all(s: Seq<char>, p: Seq<char>, r: Seq<char>) -> Seq<char>
    decreases s.len(),
{
    if s.len() == 0 || p.len() == 0 {
        s
    } else if starts_with(s, p) {
        r + replace_all(s.skip(p.len() as int), p, r)
    } else {
        seq![s[0]] + replace_all(s.skip(1), p, r)
    }
}

/// Whether `p` occurs in `v` at position `i` (exec check).
pub fn matches_at(v: &Vec<char>, p: &Vec<char>, i: usize) -> (b: bool)
    requires
        i <= v@.len(),
    ensures
        b == occurs_at(v@, p@, i as int),
{
    if p.len() > v.len() - i {
        return false;
    }
    let mut j: usize = 0;
    while j < p.len()
        invariant
            i + p@.len() <= v.len(),
            j <= p@.len(),
            forall|k: int| 0 <= k < j ==> v@[i + k] == p@[k],
        decreases p@.len() - j,
    {
        if v[i + j] != p[j] {
            assert(v@.subrange(i as int, i + p@.len())[j as int] != p@[j as int]);
            return false;
        }
        j = j + 1;
    }
    assert(v@.subrange(i as int, i + p@.len()) =~= p@);
    true
}

/// Whether `s` contains `p` (exec check).
pub fn str_contains(s: &str, p: &str) -> (b: bool)
    ensures
        b == contains(s@, p@),
{
    let v = chars_of(s);
    let q = chars_of(p);
    let mut i: usize = 0;
    while i < v.len()
        invariant
            v@ == s@,
            q@ == p@,
            i <= v@.len(),
            forall|k: int| 0 <= k < i ==> !occurs_at(s@, p@, k),
        decreases v@.len() - i,
    {
        if matches_at(&v, &q, i) {
            return true;
        }
        i = i + 1;
    }
    if matches_at(&v, &q, i) {
        return true;
    }
    assert forall|k: int| !occurs_at(s@, p@, k) by {
        if occurs_at(s@, p@, k) {
            assert(k <= v@.len());
        }
    }
    false
}

/// Whether `s` starts with `p` (exec check).
pub fn str_starts_with(s: &str, p: &str) -> (b: bool)
    ensures
        b == starts_with(s@, p@),
{
    let v = chars_of(s);
    let q = chars_of(p);
    matches_at(&v, &q, 0)
}

/// One step of `replace_all` over the suffix that starts at `i`.
proof fn lemma_replace_step(s: Seq<char>, p: Seq<char>, r: Seq<char>, i: int)
    requires
        0 <= i < s.len(),
        p.len() > 0,
    ensures
        occurs_at(s, p, i) ==> replace_all(s.skip(i), p, r) == r + replace_all(
            s.skip(i + p.len()),
            p,
            r,
        ),
        !occurs_at(s, p, i) ==> replace_all(s.skip(i), p, r) == seq![s[i]] + replace_all(
            s.skip(i + 1),
            p,
            r,
        ),
{
    let t = s.skip(i);
    assert(t.len() > 0);
    if occurs_at(s, p, i) {
        assert(t.subrange(0, p.len() as int) =~= s.subrange(i, i + p.len()));
        assert(t.skip(p.len() as int) =~= s.skip(i + p.len()));
    } else {
        if starts_with(t, p) {
            assert(t.subrange(0, p.len() as int) =~= s.subrange(i, i + p.len()));
        }
        assert(t.skip(1) =~= s.skip(i + 1));
    }
}

/// `s` with every occurrence of `p` replaced by `r` (`str::replace`).
pub fn replace_str(s: &str, p: &str, r: &str) -> (out: String)
    requires
        p@.len() > 0,
    ensures
        out@ == replace_all(s@, p@, r@),
{
    let v = chars_of(s);
    let q = chars_of(p);
    let mut out = String::new();
    let mut i: usize = 0;
    assert(s@.skip(0) =~= s@);
    while i < v.len()
        invariant
            v@ == s@,
            q@ == p@,
            p@.len() > 0,
            i <= v@.len(),
            out@ + replace_all(s@.skip(i as int), p@, r@) == replace_all(s@, p@, r@),
        decreases v@.len() - i,
    {
        proof {
            lemma_replace_step(s@, p@, r@, i as int);
        }
        if matches_at(&v, &q, i) {
            out.append(r);
            i = i + q.len();
        } else {
            push_char(&mut out, v[i]);
            i = i + 1;
        }
        assert(out@ + replace_all(s@.skip(i as int), p@, r@) == replace_all(s@, p@, r@));
    }
    assert(s@.skip(i as int).len() == 0);
    assert(out@ =~= out@ + Seq::<char>::empty());
    out
}

} // verus!
