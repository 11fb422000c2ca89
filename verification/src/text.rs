//! Character-level text operations with their mathematical meaning:
//! Unicode whitespace, trimming, prefixes, suffixes and searching, over
//! the `Seq<char>` view of strings.

use vstd::prelude::*;
use vstd::string::*;

verus! {

/// The characters that carry the Unicode `White_Space` property, which is
/// what `char::is_whitespace` (and so `str::trim`) goes by.
pub open spec fn is_whitespace(c: char) -> bool {
    ||| c == ' '
    ||| ('\t' <= c && c <= '\r')
    ||| c == '\u{85}'
    ||| c == '\u{a0}'
    ||| c == '\u{1680}'
    ||| ('\u{2000}' <= c && c <= '\u{200a}')
    ||| c == '\u{2028}'
    ||| c == '\u{2029}'
    ||| c == '\u{202f}'
    ||| c == '\u{205f}'
    ||| c == '\u{3000}'
}

/// Decides `is_whitespace`.
pub fn is_whitespace_char(c: char) -> (b: bool)
    ensures
        b == is_whitespace(c),
{
    c == ' ' || ('\t' <= c && c <= '\r') || c == '\u{85}' || c == '\u{a0}' || c == '\u{1680}'
        || ('\u{2000}' <= c && c <= '\u{200a}') || c == '\u{2028}' || c == '\u{2029}'
        || c == '\u{202f}' || c == '\u{205f}' || c == '\u{3000}'
}

/// The characters of a string, in order.
pub fn chars_of(s: &str) -> (v: Vec<char>)
    ensures
        v@ == s@,
{
    let mut v: Vec<char> = Vec::new();
    for c in it: s.chars()
        invariant
            v@ == it.seq().take(it.index() as int),
            it.seq() == s@,
    {
        v.push(c);
    }
    v
}

/// Whether `s` holds only whitespace, as `s.trim().is_empty()` tells.
pub fn is_blank_text(s: &str) -> (b: bool)
    ensures
        b == is_blank(s@),
{
    let v = chars_of(s);
    let mut i: usize = 0;
    while i < v.len()
        invariant
            i <= v.len(),
            v@ == s@,
            forall|j: int| 0 <= j < i ==> #[trigger] is_whitespace(v@[j]),
        decreases v.len() - i,
    {
        if !is_whitespace_char(v[i]) {
            return false;
        }
        i = i + 1;
    }
    true
}

/// `s` without leading and trailing whitespace, as a new string.
pub fn trimmed(s: &str) -> (r: String)
    ensures
        r@ == trim(s@),
{
    let v = chars_of(s);
    assert(window(v@, 0, v.len() as int) =~= v@);
    let (a, b) = trim_window(&v, 0, v.len());
    String::from_str(s.substring_char(a, b))
}

/// `s` without its leading whitespace.
pub open spec fn trim_start(s: Seq<char>) -> Seq<char>
    decreases s.len(),
{
    if s.len() > 0 && is_whitespace(s[0]) {
        trim_start(s.drop_first())
    } else {
        s
    }
}

/// `s` without its trailing whitespace.
pub open spec fn trim_end(s: Seq<char>) -> Seq<char>
    decreases s.len(),
{
    if s.len() > 0 && is_whitespace(s.last()) {
        trim_end(s.drop_last())
    } else {
        s
    }
}

/// `s` without leading and trailing whitespace, as `str::trim` gives it.
pub open spec fn trim(s: Seq<char>) -> Seq<char> {
    trim_end(trim_start(s))
}

/// Neither end of `s` is whitespace.
pub open spec fn is_trimmed(s: Seq<char>) -> bool {
    s.len() > 0 ==> !is_whitespace(s[0]) && !is_whitespace(s.last())
}

/// `s` holds only whitespace (or nothing).
pub open spec fn is_blank(s: Seq<char>) -> bool {
    forall|i: int| 0 <= i < s.len() ==> #[trigger] is_whitespace(s[i])
}

/// `s` begins with `p`.
pub open spec fn has_prefix(s: Seq<char>, p: Seq<char>) -> bool {
    p.len() <= s.len() && s.take(p.len() as int) == p
}

/// `s` ends with `p`.
pub open spec fn has_suffix(s: Seq<char>, p: Seq<char>) -> bool {
    p.len() <= s.len() && s.skip(s.len() - p.len()) == p
}

/// `p` occurs in `s` starting at position `i`.
pub open spec fn occurs_at(s: Seq<char>, p: Seq<char>, i: int) -> bool {
    0 <= i && i + p.len() <= s.len() && s.subrange(i, i + p.len()) == p
}

/// The first position at which `p` occurs in `s`, as `str::find` gives it.
#[verifier::opaque]
pub open spec fn first_occurrence(s: Seq<char>, p: Seq<char>) -> Option<int> {
    if exists|i: int| occurs_at(s, p, i) {
        Some(choose|i: int| occurs_at(s, p, i) && forall|j: int| 0 <= j < i ==> !occurs_at(s, p, j))
    } else {
        None
    }
}

/// `s` with every repetition of the non-empty `p` at its end removed, as
/// `str::trim_end_matches` gives it.
pub open spec fn trim_end_matches(s: Seq<char>, p: Seq<char>) -> Seq<char>
    decreases s.len(),
{
    if p.len() > 0 && has_suffix(s, p) {
        trim_end_matches(s.take(s.len() - p.len()), p)
    } else {
        s
    }
}

/// The text between the positions `lo` and `hi` of `v`.
pub open spec fn window(v: Seq<char>, lo: int, hi: int) -> Seq<char> {
    v.subrange(lo, hi)
}

/// Narrows the window `[lo, hi)` of `v` to its text without leading and
/// trailing whitespace.
pub fn trim_window(v: &Vec<char>, lo: usize, hi: usize) -> (r: (usize, usize))
    requires
        lo <= hi <= v.len(),
    ensures
        lo <= r.0 <= r.1 <= hi,
        window(v@, r.0 as int, r.1 as int) == trim(window(v@, lo as int, hi as int)),
{
    let mut a = lo;
    while a < hi && is_whitespace_char(v[a])
        invariant
            lo <= a <= hi <= v.len(),
            trim_start(window(v@, lo as int, hi as int)) == trim_start(window(v@, a as int, hi as int)),
        decreases hi - a,
    {
        assert(window(v@, a as int, hi as int).drop_first() =~= window(v@, a + 1, hi as int));
        a = a + 1;
    }
    assert(trim_start(window(v@, a as int, hi as int)) == window(v@, a as int, hi as int));
    let mut b = hi;
    while b > a && is_whitespace_char(v[b - 1])
        invariant
            lo <= a <= b <= hi <= v.len(),
            trim_end(window(v@, a as int, hi as int)) == trim_end(window(v@, a as int, b as int)),
        decreases b - a,
    {
        assert(window(v@, a as int, b as int).drop_last() =~= window(v@, a as int, b - 1));
        b = b - 1;
    }
    (a, b)
}


/// Whether `p` occurs in `v` at position `i` (within the first `hi` characters).
pub fn matches_at(v: &Vec<char>, hi: usize, p: &Vec<char>, i: usize) -> (b: bool)
    requires
        hi <= v.len(),
        i + p.len() <= hi,
    ensures
        b == (window(v@, i as int, i + p.len()) == p@),
{
    let mut k: usize = 0;
    while k < p.len()
        invariant
            k <= p.len(),
            i + p.len() <= hi <= v.len(),
            forall|j: int| 0 <= j < k ==> v@[i + j] == p@[j],
        decreases p.len() - k,
    {
        if v[i + k] != p[k] {
            assert(window(v@, i as int, i + p.len())[k as int] != p@[k as int]);
            return false;
        }
        k = k + 1;
    }
    assert(window(v@, i as int, i + p.len()) =~= p@);
    true
}

/// Whether the window `[lo, hi)` of `v` begins with `p`.
pub fn window_has_prefix(v: &Vec<char>, lo: usize, hi: usize, p: &Vec<char>) -> (b: bool)
    requires
        lo <= hi <= v.len(),
    ensures
        b == has_prefix(window(v@, lo as int, hi as int), p@),
{
    if p.len() > hi - lo {
        return false;
    }
    assert(window(v@, lo as int, hi as int).take(p.len() as int) =~= window(v@, lo as int, lo + p.len()));
    matches_at(v, hi, p, lo)
}

/// Whether the window `[lo, hi)` of `v` ends with `p`.
pub fn window_has_suffix(v: &Vec<char>, lo: usize, hi: usize, p: &Vec<char>) -> (b: bool)
    requires
        lo <= hi <= v.len(),
    ensures
        b == has_suffix(window(v@, lo as int, hi as int), p@),
{
    if p.len() > hi - lo {
        return false;
    }
    assert(window(v@, lo as int, hi as int).skip(hi - lo - p.len()) =~= window(v@, hi - p.len(), hi as int));
    matches_at(v, hi, p, hi - p.len())
}

/// The first position, counted from `lo`, at which the non-empty `p` occurs
/// in the window `[lo, hi)` of `v`.
pub fn window_find(v: &Vec<char>, lo: usize, hi: usize, p: &Vec<char>) -> (r: Option<usize>)
    requires
        lo <= hi <= v.len(),
        p.len() > 0,
    ensures
        match r {
            Some(i) => {
                &&& first_occurrence(window(v@, lo as int, hi as int), p@) == Some(i as int)
                &&& occurs_at(window(v@, lo as int, hi as int), p@, i as int)
            },
            None => first_occurrence(window(v@, lo as int, hi as int), p@) is None,
        },
{
    let ghost w = window(v@, lo as int, hi as int);
    if p.len() > hi - lo {
        assert(first_occurrence(w, p@) is None) by {
            reveal(first_occurrence);
        }
        return None;
    }
    let mut i = lo;
    while i <= hi - p.len()
        invariant
            lo <= i <= hi - p.len() + 1,
            hi <= v.len(),
            0 < p.len() <= hi - lo,
            w == window(v@, lo as int, hi as int),
            forall|j: int| 0 <= j < i - lo ==> !occurs_at(w, p@, j),
        decreases hi - i,
    {
        assert(w.subrange(i - lo, i - lo + p.len()) =~= window(v@, i as int, i + p.len()));
        if matches_at(v, hi, p, i) {
            let ghost k = (i - lo) as int;
            assert(occurs_at(w, p@, k));
            assert(first_occurrence(w, p@) == Some(k)) by {
                reveal(first_occurrence);
                let c = choose|c: int| occurs_at(w, p@, c) && forall|j: int| 0 <= j < c ==> !occurs_at(w, p@, j);
                assert(occurs_at(w, p@, k) && forall|j: int| 0 <= j < k ==> !occurs_at(w, p@, j));
                assert(c == k) by {
                    if c < k {
                    } else if c > k {
                    }
                }
            }
            return Some(i - lo);
        }
        i = i + 1;
    }
    assert(first_occurrence(w, p@) is None) by {
        reveal(first_occurrence);
        assert forall|j: int| !occurs_at(w, p@, j) by {
            if 0 <= j < i - lo {
            }
        }
    }
    None
}

/// Shrinks the end of the window `[lo, hi)` of `v` past every repetition of
/// the non-empty `p` that it ends with.
pub fn window_trim_end_matches(v: &Vec<char>, lo: usize, hi: usize, p: &Vec<char>) -> (r: usize)
    requires
        lo <= hi <= v.len(),
        p.len() > 0,
    ensures
        lo <= r <= hi,
        window(v@, lo as int, r as int) == trim_end_matches(window(v@, lo as int, hi as int), p@),
{
    let mut b = hi;
    while window_has_suffix(v, lo, b, p)
        invariant
            lo <= b <= hi <= v.len(),
            p.len() > 0,
            trim_end_matches(window(v@, lo as int, hi as int), p@) == trim_end_matches(window(v@, lo as int, b as int), p@),
        decreases b - lo,
    {
        assert(window(v@, lo as int, b as int).take(b - lo - p.len()) =~= window(v@, lo as int, b - p.len()));
        b = b - p.len();
    }
    b
}


/// Trimming the start drops a run of whitespace: what is left is a suffix
/// that does not begin with whitespace.
pub proof fn lemma_trim_start(s: Seq<char>) -> (k: int)
    ensures
        0 <= k <= s.len(),
        trim_start(s) == s.skip(k),
        forall|i: int| 0 <= i < k ==> #[trigger] is_whitespace(s[i]),
        k < s.len() ==> !is_whitespace(s[k]),
    decreases s.len(),
{
    if s.len() > 0 && is_whitespace(s[0]) {
        let k1 = lemma_trim_start(s.drop_first());
        assert(s.drop_first().skip(k1) =~= s.skip(k1 + 1));
        assert forall|i: int| 0 <= i < k1 + 1 implies #[trigger] is_whitespace(s[i]) by {
            if i > 0 {
                assert(s[i] == s.drop_first()[i - 1]);
            }
        }
        k1 + 1
    } else {
        assert(s.skip(0) =~= s);
        0
    }
}

/// Trimming the end drops a run of whitespace: what is left is a prefix
/// that does not end with whitespace.
pub proof fn lemma_trim_end(s: Seq<char>) -> (k: int)
    ensures
        0 <= k <= s.len(),
        trim_end(s) == s.take(k),
        forall|i: int| k <= i < s.len() ==> #[trigger] is_whitespace(s[i]),
        k > 0 ==> !is_whitespace(s[k - 1]),
    decreases s.len(),
{
    if s.len() > 0 && is_whitespace(s.last()) {
        let k1 = lemma_trim_end(s.drop_last());
        assert(s.drop_last().take(k1) =~= s.take(k1));
        assert forall|i: int| k1 <= i < s.len() implies #[trigger] is_whitespace(s[i]) by {
            if i < s.len() - 1 {
                assert(s[i] == s.drop_last()[i]);
            }
        }
        k1
    } else {
        assert(s.take(s.len() as int) =~= s);
        s.len() as int
    }
}

/// Trimming keeps a contiguous part of the text: the characters between
/// the returned positions.
pub proof fn lemma_trim_range(s: Seq<char>) -> (r: (int, int))
    ensures
        0 <= r.0 <= r.1 <= s.len(),
        trim(s) == s.subrange(r.0, r.1),
        is_trimmed(trim(s)),
        forall|i: int| 0 <= i < r.0 ==> #[trigger] is_whitespace(s[i]),
        forall|i: int| r.1 <= i < s.len() ==> #[trigger] is_whitespace(s[i]),
        r.0 < r.1 ==> !is_whitespace(s[r.0]) && !is_whitespace(s[r.1 - 1]),
        r.0 == r.1 ==> is_blank(s),
{
    let a = lemma_trim_start(s);
    let t = s.skip(a);
    let b = lemma_trim_end(t);
    assert(t.take(b) =~= s.subrange(a, a + b));
    if b > 0 {
        assert(t[0] == s[a]);
        assert(t[b - 1] == s[a + b - 1]);
    }
    assert forall|i: int| a + b <= i < s.len() implies #[trigger] is_whitespace(s[i]) by {
        assert(s[i] == t[i - a]);
    }
    if b == 0 {
        assert forall|i: int| 0 <= i < s.len() implies #[trigger] is_whitespace(s[i]) by {
            if i >= a {
                assert(s[i] == t[i - a]);
            }
        }
    }
    (a, a + b)
}

/// A text that is already trimmed is left as it is by trimming.
pub proof fn lemma_trim_trimmed(s: Seq<char>)
    requires
        is_trimmed(s),
    ensures
        trim(s) == s,
{
    let a = lemma_trim_start(s);
    assert(a == 0);
    assert(s.skip(0) =~= s);
    let b = lemma_trim_end(s);
    assert(b == s.len());
    assert(s.take(s.len() as int) =~= s);
}

/// A first occurrence is an occurrence.
pub proof fn lemma_first_occurrence_occurs(s: Seq<char>, p: Seq<char>)
    ensures
        first_occurrence(s, p) matches Some(i) ==> occurs_at(s, p, i) && forall|j: int|
            0 <= j < i ==> !occurs_at(s, p, j),
        first_occurrence(s, p) is None ==> forall|j: int| !occurs_at(s, p, j),
{
    reveal(first_occurrence);
    if exists|i: int| occurs_at(s, p, i) {
        let w = choose|i: int| occurs_at(s, p, i);
        lemma_least_occurrence(s, p, w);
    }
}

/// Where `p` occurs at `w`, it has an earliest occurrence.
proof fn lemma_least_occurrence(s: Seq<char>, p: Seq<char>, w: int)
    requires
        occurs_at(s, p, w),
    ensures
        exists|i: int| occurs_at(s, p, i) && forall|j: int| 0 <= j < i ==> !occurs_at(s, p, j),
    decreases w,
{
    if exists|j: int| 0 <= j < w && occurs_at(s, p, j) {
        let j = choose|j: int| 0 <= j < w && occurs_at(s, p, j);
        lemma_least_occurrence(s, p, j);
    } else {
        assert(occurs_at(s, p, w) && forall|j: int| 0 <= j < w ==> !occurs_at(s, p, j));
    }
}

/// After removing every repetition of a non-empty suffix, the text no
/// longer ends with it.
pub proof fn lemma_trim_end_matches_done(s: Seq<char>, p: Seq<char>)
    requires
        p.len() > 0,
    ensures
        !has_suffix(trim_end_matches(s, p), p),
    decreases s.len(),
{
    if has_suffix(s, p) {
        lemma_trim_end_matches_done(s.take(s.len() - p.len()), p);
    }
}

/// Removing repeated suffixes keeps a prefix of the text.
pub proof fn lemma_trim_end_matches(s: Seq<char>, p: Seq<char>) -> (k: int)
    ensures
        0 <= k <= s.len(),
        trim_end_matches(s, p) == s.take(k),
    decreases s.len(),
{
    if p.len() > 0 && has_suffix(s, p) {
        let t = s.take(s.len() - p.len());
        let k1 = lemma_trim_end_matches(t, p);
        assert(t.take(k1) =~= s.take(k1));
        k1
    } else {
        assert(s.take(s.len() as int) =~= s);
        s.len() as int
    }
}


/// Calls `String::push`; the claim is that the character is appended.
#[verifier::external_body]
pub fn push_char(s: &mut String, c: char)
    ensures
        final(s)@ == old(s)@.push(c),
{
    s.push(c);
}

/// Whether two texts are the same.
pub fn same_text(a: &str, b: &str) -> (r: bool)
    ensures
        r == (a@ == b@),
{
    String::from_str(a) == String::from_str(b)
}

/// `p` occurs somewhere in `s`.
pub open spec fn contains(s: Seq<char>, p: Seq<char>) -> bool {
    exists|i: int| occurs_at(s, p, i)
}

/// Whether the non-empty `p` occurs in `s`, as `str::contains` tells.
pub fn contains_text(s: &str, p: &str) -> (b: bool)
    requires
        p@.len() > 0,
    ensures
        b == contains(s@, p@),
{
    let v = chars_of(s);
    let pv = chars_of(p);
    assert(window(v@, 0, v.len() as int) =~= v@);
    let found = window_find(&v, 0, v.len(), &pv);
    proof {
        lemma_first_occurrence_occurs(s@, p@);
    }
    found.is_some()
}

/// `s` with each occurrence of the non-empty `p`, taken from left to right
/// without overlap, replaced by `r`, as `str::replace` gives it.
pub open spec fn replace_all(s: Seq<char>, p: Seq<char>, r: Seq<char>) -> Seq<char>
    decreases s.len(),
{
    if p.len() == 0 || s.len() < p.len() {
        s
    } else if s.take(p.len() as int) == p {
        r + replace_all(s.skip(p.len() as int), p, r)
    } else {
        seq![s[0]] + replace_all(s.drop_first(), p, r)
    }
}

/// Replaces each occurrence of the non-empty `p` in `s` by `r`.
pub fn replace_text(s: &str, p: &str, r: &str) -> (out: String)
    requires
        p@.len() > 0,
    ensures
        out@ == replace_all(s@, p@, r@),
{
    let v = chars_of(s);
    let pv = chars_of(p);
    let n = v.len();
    let m = pv.len();
    let mut out = String::new();
    let mut last: usize = 0;
    let mut i: usize = 0;
    assert(v@.skip(0) =~= v@);
    assert(v@.subrange(0, 0) =~= Seq::<char>::empty());
    while i < n && m <= n - i
        invariant
            n == v.len(),
            m == pv.len(),
            v@ == s@,
            pv@ == p@,
            m > 0,
            last <= i <= n,
            replace_all(s@, p@, r@) == out@ + v@.subrange(last as int, i as int) + replace_all(
                v@.skip(i as int),
                p@,
                r@,
            ),
        decreases n - i,
    {
        let ghost rest = v@.skip(i as int);
        assert(rest.take(m as int) =~= window(v@, i as int, i + m));
        if matches_at(&v, n, &pv, i) {
            assert(rest.skip(m as int) =~= v@.skip(i + m));
            out.append(s.substring_char(last, i));
            out.append(r);
            i = i + m;
            last = i;
            assert(v@.subrange(last as int, i as int) =~= Seq::<char>::empty());
        } else {
            assert(rest.drop_first() =~= v@.skip(i + 1));
            assert(rest[0] == v@[i as int]);
            assert(v@.subrange(last as int, i as int) + seq![v@[i as int]] =~= v@.subrange(
                last as int,
                i + 1,
            ));
            i = i + 1;
        }
    }
    assert(v@.subrange(last as int, i as int) + v@.skip(i as int) =~= v@.subrange(last as int, n as int));
    out.append(s.substring_char(last, n));
    out
}

/// A text that ends with `k`, put before `v` and a text that begins with
/// `q`, makes `k`, `v` and `q` occur together where `k` began.
pub proof fn lemma_occurs_across(a: Seq<char>, k: Seq<char>, v: Seq<char>, q: Seq<char>, b: Seq<char>)
    requires
        has_suffix(a, k),
        has_prefix(b, q),
    ensures
        occurs_at(a + v + b, k + v + q, a.len() - k.len()),
{
    let t = a + v + b;
    let start = a.len() - k.len();
    let w = k + v + q;
    assert forall|j: int| 0 <= j < w.len() implies t.subrange(start, start + w.len())[j] == w[j] by {
        if j < k.len() {
            assert(a.skip(start)[j] == k[j]);
        } else if j < k.len() + v.len() {
        } else {
            assert(b.take(q.len() as int)[j - k.len() - v.len()] == q[j - k.len() - v.len()]);
        }
    }
    assert(t.subrange(start, start + w.len()) =~= w);
}

/// An occurrence inside a part of a text is an occurrence in the text.
pub proof fn lemma_occurs_inside(a: Seq<char>, p: Seq<char>, b: Seq<char>, x: Seq<char>, i: int)
    requires
        occurs_at(p, x, i),
    ensures
        occurs_at(a + p + b, x, a.len() + i),
{
    assert((a + p + b).subrange(a.len() + i, a.len() + i + x.len()) =~= p.subrange(i, i + x.len()));
}

/// A text ends with what its last part ends with.
pub proof fn lemma_suffix_of_concat(x: Seq<char>, p: Seq<char>, k: Seq<char>)
    requires
        has_suffix(p, k),
    ensures
        has_suffix(x + p, k),
{
    assert((x + p).skip((x + p).len() - k.len()) =~= p.skip(p.len() - k.len()));
}

/// A text begins with what its first part begins with.
pub proof fn lemma_prefix_of_concat(p: Seq<char>, y: Seq<char>, q: Seq<char>)
    requires
        has_prefix(p, q),
    ensures
        has_prefix(p + y, q),
{
    assert((p + y).take(q.len() as int) =~= p.take(q.len() as int));
}

} // verus!
