use vstd::prelude::*;
use vstd::utf8::{char_is_scalar, encode_scalar, encode_utf8};

verus! {

broadcast use vstd::string::group_string_axioms;

/// The characters of a string slice, in order.
pub fn chars_of(s: &str) -> (v: Vec<char>)
    ensures
        v@ == s@,
{
    let mut v: Vec<char> = Vec::new();
    for c in it: s.chars()
        invariant
            it.seq() == s@,
            v@ == it.seq().take(it.index() as int),
    {
        v.push(c);
    }
    proof {
        assert(s@.take(s@.len() as int) =~= s@);
    }
    v
}

/// Characters with the Unicode `White_Space` property (what `char::is_whitespace` accepts).
pub open spec fn is_whitespace(c: char) -> bool {
    let u = c as u32;
    (0x09 <= u && u <= 0x0d) || u == 0x20 || u == 0x85 || u == 0xa0 || u == 0x1680 || (0x2000 <= u
        && u <= 0x200a) || u == 0x2028 || u == 0x2029 || u == 0x202f || u == 0x205f || u == 0x3000
}

/// `s` without its leading whitespace.
pub open spec fn trim_start(s: Seq<char>) -> Seq<char>
    decreases s.len(),
{
    if s.len() > 0 && is_whitespace(s[0]) {
        trim_start(s.drop_first())
    } else {
        s
    }
}

/// `s` without its trailing whitespace.
pub open spec fn trim_end(s: Seq<char>) -> Seq<char>
    decreases s.len(),
{
    if s.len() > 0 && is_whitespace(s.last()) {
        trim_end(s.drop_last())
    } else {
        s
    }
}

/// `s` without leading and trailing whitespace (what `str::trim` gives).
pub open spec fn trim(s: Seq<char>) -> Seq<char> {
    trim_end(trim_start(s))
}

/// Whether `s` begins with `prefix`.
pub open spec fn has_prefix(s: Seq<char>, prefix: Seq<char>) -> bool {
    prefix.len() <= s.len() && s.take(prefix.len() as int) == prefix
}

/// Every character of `s` is ASCII.
pub open spec fn is_ascii_text(s: Seq<char>) -> bool {
    forall|i: int| 0 <= i < s.len() ==> (#[trigger] s[i]) as u32 <= 0x7f
}

/// The uppercase form of an ASCII character: `a`..=`z` become `A`..=`Z`.
pub open spec fn ascii_upper(c: char) -> char {
    if 'a' <= c && c <= 'z' {
        ((c as u32) - 32) as char
    } else {
        c
    }
}

/// The lowercase form of an ASCII character: `A`..=`Z` become `a`..=`z`.
pub open spec fn ascii_lower(c: char) -> char {
    if 'A' <= c && c <= 'Z' {
        ((c as u32) + 32) as char
    } else {
        c
    }
}

pub fn is_whitespace_char(c: char) -> (r: bool)
    ensures
        r == is_whitespace(c),
{
    let u = c as u32;
    (0x09 <= u && u <= 0x0d) || u == 0x20 || u == 0x85 || u == 0xa0 || u == 0x1680 || (0x2000 <= u
        && u <= 0x200a) || u == 0x2028 || u == 0x2029 || u == 0x202f || u == 0x205f || u == 0x3000
}

pub proof fn lemma_trim_start_skip(s: Seq<char>, k: int)
    requires
        0 <= k <= s.len(),
        forall|i: int| 0 <= i < k ==> is_whitespace(#[trigger] s[i]),
        k == s.len() || !is_whitespace(s[k]),
    ensures
        trim_start(s) == s.skip(k),
    decreases k,
{
    if k == 0 {
        assert(s.skip(0) =~= s);
    } else {
        assert(is_whitespace(s[0]));
        let t = s.drop_first();
        assert forall|i: int| 0 <= i < k - 1 implies is_whitespace(#[trigger] t[i]) by {
            assert(t[i] == s[i + 1]);
        }
        lemma_trim_start_skip(t, k - 1);
        assert(t.skip(k - 1) =~= s.skip(k));
    }
}

pub proof fn lemma_trim_end_take(s: Seq<char>, k: int)
    requires
        0 <= k <= s.len(),
        forall|i: int| k <= i < s.len() ==> is_whitespace(#[trigger] s[i]),
        k == 0 || !is_whitespace(s[k - 1]),
    ensures
        trim_end(s) == s.take(k),
    decreases s.len() - k,
{
    if k == s.len() {
        assert(s.take(k) =~= s);
        if s.len() > 0 {
            assert(s.last() == s[k - 1]);
        }
    } else {
        assert(is_whitespace(s.last()));
        let t = s.drop_last();
        lemma_trim_end_take(t, k);
        assert(t.take(k) =~= s.take(k));
    }
}

/// Bounds `[lo, hi)` of `v[a..b]` with leading and trailing whitespace removed.
pub fn trim_bounds(v: &Vec<char>, a: usize, b: usize) -> (r: (usize, usize))
    requires
        a <= b <= v@.len(),
    ensures
        a <= r.0 <= r.1 <= b,
        v@.subrange(r.0 as int, r.1 as int) == trim(v@.subrange(a as int, b as int)),
{
    let mut lo = a;
    while lo < b && is_whitespace_char(v[lo])
        invariant
            a <= lo <= b <= v@.len(),
            forall|i: int| a <= i < lo ==> is_whitespace(#[trigger] v@[i]),
        decreases b - lo,
    {
        lo = lo + 1;
    }
    let mut hi = b;
    while hi > lo && is_whitespace_char(v[hi - 1])
        invariant
            a <= lo <= hi <= b <= v@.len(),
            forall|i: int| hi <= i < b ==> is_whitespace(#[trigger] v@[i]),
        decreases hi - lo,
    {
        hi = hi - 1;
    }
    proof {
        let s = v@.subrange(a as int, b as int);
        assert forall|i: int| 0 <= i < lo - a implies is_whitespace(#[trigger] s[i]) by {
            assert(s[i] == v@[a + i]);
        }
        lemma_trim_start_skip(s, lo - a);
        let u = v@.subrange(lo as int, b as int);
        assert(s.skip(lo - a) =~= u);
        assert forall|i: int| hi - lo <= i < u.len() implies is_whitespace(#[trigger] u[i]) by {
            assert(u[i] == v@[lo + i]);
        }
        lemma_trim_end_take(u, hi - lo);
        assert(u.take(hi - lo) =~= v@.subrange(lo as int, hi as int));
    }
    (lo, hi)
}

/// Whether `v[a..b]` begins with the characters of `prefix`.
pub fn starts_with_at(v: &Vec<char>, a: usize, b: usize, prefix: &Vec<char>) -> (r: bool)
    requires
        a <= b <= v@.len(),
    ensures
        r == has_prefix(v@.subrange(a as int, b as int), prefix@),
{
    if prefix.len() > b - a {
        return false;
    }
    let mut i: usize = 0;
    while i < prefix.len()
        invariant
            prefix@.len() <= b - a,
            a <= b <= v@.len(),
            0 <= i <= prefix@.len(),
            forall|j: int| 0 <= j < i ==> v@[a + j] == prefix@[j],
        decreases prefix@.len() - i,
    {
        if v[a + i] != prefix[i] {
            proof {
                let s = v@.subrange(a as int, b as int);
                assert(s.take(prefix@.len() as int)[i as int] != prefix@[i as int]);
            }
            return false;
        }
        i = i + 1;
    }
    proof {
        assert(v@.subrange(a as int, b as int).take(prefix@.len() as int) =~= prefix@);
    }
    true
}

/// Number of bytes in the UTF-8 encoding of one character.
pub open spec fn char_width(c: char) -> nat {
    encode_scalar(c as u32).len()
}

pub proof fn lemma_encode_utf8_push(x: Seq<char>, c: char)
    ensures
        encode_utf8(x.push(c)) == encode_utf8(x) + encode_scalar(c as u32),
    decreases x.len(),
{
    if x.len() == 0 {
        assert(x.push(c).drop_first() =~= Seq::<char>::empty());
        assert(encode_utf8(Seq::<char>::empty()) =~= Seq::<u8>::empty());
        assert(encode_utf8(x) =~= Seq::<u8>::empty());
        assert(encode_scalar(c as u32) + Seq::<u8>::empty() =~= encode_scalar(c as u32));
    } else {
        lemma_encode_utf8_push(x.drop_first(), c);
        assert(x.push(c).drop_first() =~= x.drop_first().push(c));
        assert(x.push(c)[0] == x[0]);
        assert(encode_utf8(x.push(c)) =~= encode_utf8(x) + encode_scalar(c as u32));
    }
}

fn utf8_width(c: char) -> (w: usize)
    ensures
        w == char_width(c),
        1 <= w <= 4,
{
    proof {
        char_is_scalar(c);
    }
    let u = c as u32;
    if u < 0x80 {
        1
    } else if u < 0x800 {
        2
    } else if u < 0x10000 {
        3
    } else {
        4
    }
}

/// The length in bytes of the UTF-8 encoding of `v[a..b]`, or `limit + 1` when that
/// length exceeds `limit`.
pub fn utf8_len_upto(v: &Vec<char>, a: usize, b: usize, limit: usize) -> (r: usize)
    requires
        a <= b <= v@.len(),
        limit < usize::MAX - 4,
    ensures
        r == if encode_utf8(v@.subrange(a as int, b as int)).len() <= limit {
            encode_utf8(v@.subrange(a as int, b as int)).len()
        } else {
            (limit + 1) as nat
        },
{
    let mut total: usize = 0;
    let mut i: usize = a;
    proof {
        assert(v@.subrange(a as int, a as int) =~= Seq::<char>::empty());
        assert(encode_utf8(Seq::<char>::empty()) =~= Seq::<u8>::empty());
    }
    while i < b
        invariant
            a <= i <= b <= v@.len(),
            limit < usize::MAX - 4,
            total <= limit,
            total == encode_utf8(v@.subrange(a as int, i as int)).len(),
        decreases b - i,
    {
        let w = utf8_width(v[i]);
        proof {
            assert(v@.subrange(a as int, i + 1) =~= v@.subrange(a as int, i as int).push(v@[i as int]));
            lemma_encode_utf8_push(v@.subrange(a as int, i as int), v@[i as int]);
        }
        total = total + w;
        i = i + 1;
        if total > limit {
            proof {
                lemma_encode_utf8_prefix_len(v@.subrange(a as int, b as int), i - a);
                assert(v@.subrange(a as int, b as int).take(i - a) =~= v@.subrange(a as int, i as int));
            }
            return limit + 1;
        }
    }
    total
}

pub proof fn lemma_encode_utf8_prefix_len(s: Seq<char>, k: int)
    requires
        0 <= k <= s.len(),
    ensures
        encode_utf8(s.take(k)).len() <= encode_utf8(s).len(),
    decreases s.len() - k,
{
    if k < s.len() {
        lemma_encode_utf8_prefix_len(s, k + 1);
        assert(s.take(k + 1) =~= s.take(k).push(s[k]));
        lemma_encode_utf8_push(s.take(k), s[k]);
    } else {
        assert(s.take(k) =~= s);
    }
}

/// Whether two string slices hold the same characters.
pub fn same_text(a: &str, b: &str) -> (r: bool)
    ensures
        r == (a@ == b@),
{
    let x = chars_of(a);
    let y = chars_of(b);
    if x.len() != y.len() {
        return false;
    }
    let mut i: usize = 0;
    while i < x.len()
        invariant
            x@ == a@,
            y@ == b@,
            x@.len() == y@.len(),
            0 <= i <= x@.len(),
            forall|j: int| 0 <= j < i ==> x@[j] == y@[j],
        decreases x@.len() - i,
    {
        if x[i] != y[i] {
            proof {
                assert(a@[i as int] != b@[i as int]);
            }
            return false;
        }
        i = i + 1;
    }
    proof {
        assert(x@ =~= y@);
    }
    true
}

/// Whether `s` begins with the characters of `prefix`.
pub fn text_starts_with(s: &str, prefix: &str) -> (r: bool)
    ensures
        r == has_prefix(s@, prefix@),
{
    let v = chars_of(s);
    let p = chars_of(prefix);
    proof {
        assert(v@.subrange(0, v@.len() as int) =~= v@);
    }
    starts_with_at(&v, 0, v.len(), &p)
}

/// Number of characters of `s` before the first `sep` (all of them when there is none).
pub open spec fn segment_len(s: Seq<char>, sep: char) -> nat
    decreases s.len(),
{
    if s.len() == 0 {
        0
    } else if s[0] == sep {
        0
    } else {
        1 + segment_len(s.drop_first(), sep)
    }
}

pub proof fn lemma_segment_len(s: Seq<char>, sep: char, k: int)
    requires
        0 <= k <= s.len(),
        forall|i: int| 0 <= i < k ==> #[trigger] s[i] != sep,
        k == s.len() || s[k] == sep,
    ensures
        segment_len(s, sep) == k,
    decreases k,
{
    if k > 0 {
        let t = s.drop_first();
        assert forall|i: int| 0 <= i < k - 1 implies #[trigger] t[i] != sep by {
            assert(t[i] == s[i + 1]);
        }
        lemma_segment_len(t, sep, k - 1);
    }
}

/// The end of the segment of `v` that starts at `start`: the index of the next `sep`, or
/// the length of `v`.
pub fn segment_end(v: &Vec<char>, start: usize, sep: char) -> (end: usize)
    requires
        start <= v@.len(),
    ensures
        start <= end <= v@.len(),
        segment_len(v@.skip(start as int), sep) == end - start,
        v@.skip(start as int).take(end - start) == v@.subrange(start as int, end as int),
{
    let mut end = start;
    while end < v.len() && v[end] != sep
        invariant
            start <= end <= v@.len(),
            forall|i: int| start <= i < end ==> #[trigger] v@[i] != sep,
        decreases v@.len() - end,
    {
        end = end + 1;
    }
    proof {
        let rest = v@.skip(start as int);
        assert forall|i: int| 0 <= i < end - start implies #[trigger] rest[i] != sep by {
            assert(rest[i] == v@[start + i]);
        }
        lemma_segment_len(rest, sep, end - start);
        assert(rest.take(end - start) =~= v@.subrange(start as int, end as int));
    }
    end
}

} // verus!
