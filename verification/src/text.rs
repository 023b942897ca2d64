//! Character and string primitives that the message filter is built from,
//! each defined on sequences of characters and computed on `str`.

use vstd::prelude::*;

verus! {

/// Whether `c` is white space: one of the characters that carry the Unicode
/// `White_Space` property.
pub open spec fn is_whitespace(c: char) -> bool {
    let n = c as u32;
    ||| 0x09 <= n <= 0x0D
    ||| n == 0x20
    ||| n == 0x85
    ||| n == 0xA0
    ||| n == 0x1680
    ||| 0x2000 <= n <= 0x200A
    ||| n == 0x2028
    ||| n == 0x2029
    ||| n == 0x202F
    ||| n == 0x205F
    ||| n == 0x3000
}

/// `c` with an ASCII capital letter folded to its small letter; every other
/// character is left as it is.
pub open spec fn ascii_lower(c: char) -> char {
    if 'A' <= c <= 'Z' {
        ((c as u32 + 32) as u8) as char
    } else {
        c
    }
}

/// `s` without the white space it starts with.
pub open spec fn trim_start(s: Seq<char>) -> Seq<char>
    decreases s.len(),
{
    if s.len() > 0 && is_whitespace(s.first()) {
        trim_start(s.drop_first())
    } else {
        s
    }
}

/// `s` without the white space it ends with.
pub open spec fn trim_end(s: Seq<char>) -> Seq<char>
    decreases s.len(),
{
    if s.len() > 0 && is_whitespace(s.last()) {
        trim_end(s.drop_last())
    } else {
        s
    }
}

/// `s` without the white space at either end.
pub open spec fn trim(s: Seq<char>) -> Seq<char> {
    trim_end(trim_start(s))
}

/// `s` with every ASCII capital letter folded to its small letter.
pub open spec fn to_ascii_lowercase(s: Seq<char>) -> Seq<char> {
    Seq::new(s.len(), |i: int| ascii_lower(s[i]))
}

/// The form in which a chat line is compared: trimmed, then folded to lower
/// case.
pub open spec fn normalized(s: Seq<char>) -> Seq<char> {
    to_ascii_lowercase(trim(s))
}

/// Whether the last characters of `s` are exactly `suffix`.
pub open spec fn ends_with(s: Seq<char>, suffix: Seq<char>) -> bool {
    &&& suffix.len() <= s.len()
    &&& s.subrange(s.len() - suffix.len(), s.len() as int) == suffix
}

/// Computes [`is_whitespace`].
pub fn char_is_whitespace(c: char) -> (r: bool)
    ensures
        r == is_whitespace(c),
{
    let n: u32 = c as u32;
    (0x09 <= n && n <= 0x0D) || n == 0x20 || n == 0x85 || n == 0xA0 || n == 0x1680 || (0x2000 <= n
        && n <= 0x200A) || n == 0x2028 || n == 0x2029 || n == 0x202F || n == 0x205F || n == 0x3000
}

/// Computes [`ascii_lower`].
pub fn char_to_ascii_lowercase(c: char) -> (r: char)
    ensures
        r == ascii_lower(c),
{
    let n: u32 = c as u32;
    if 0x41 <= n && n <= 0x5A {
        let low: u8 = (n + 32) as u8;
        low as char
    } else {
        c
    }
}

/// The characters of `s`, in order.
pub fn chars_of(s: &str) -> (v: Vec<char>)
    ensures
        v@ == s@,
{
    let mut v: Vec<char> = Vec::new();
    for c in it: s.chars()
        invariant
            it.seq() == s@,
            v@ == s@.take(it.index() as int),
    {
        v.push(c);
    }
    v
}

/// `trim_start` drops exactly the leading run of white space: the first `k`
/// characters, where `k` is the place of the first one that is none.
proof fn lemma_trim_start_is_suffix(s: Seq<char>, k: int)
    requires
        0 <= k <= s.len(),
        forall|i: int| 0 <= i < k ==> is_whitespace(#[trigger] s[i]),
        k == s.len() || !is_whitespace(s[k]),
    ensures
        trim_start(s) == s.subrange(k, s.len() as int),
    decreases k,
{
    if k == 0 {
        assert(s.subrange(0, s.len() as int) =~= s);
    } else {
        let rest = s.drop_first();
        assert forall|i: int| 0 <= i < k - 1 implies is_whitespace(#[trigger] rest[i]) by {
            assert(rest[i] == s[i + 1]);
        }
        lemma_trim_start_is_suffix(rest, k - 1);
        assert(rest.subrange(k - 1, rest.len() as int) =~= s.subrange(k, s.len() as int));
    }
}

/// `trim_end` drops exactly the trailing run of white space: everything from
/// `e` on, where `e` follows the last character that is none.
proof fn lemma_trim_end_is_prefix(s: Seq<char>, e: int)
    requires
        0 <= e <= s.len(),
        forall|i: int| e <= i < s.len() ==> is_whitespace(#[trigger] s[i]),
        e == 0 || !is_whitespace(s[e - 1]),
    ensures
        trim_end(s) == s.subrange(0, e),
    decreases s.len() - e,
{
    if e == s.len() {
        assert(s.subrange(0, e) =~= s);
    } else {
        let rest = s.drop_last();
        lemma_trim_end_is_prefix(rest, e);
        assert(rest.subrange(0, e) =~= s.subrange(0, e));
    }
}

/// The bounds `(a, b)` of what `trim` keeps of `s`.
fn trim_bounds(s: &Vec<char>) -> (r: (usize, usize))
    ensures
        r.0 <= r.1 <= s.len(),
        s@.subrange(r.0 as int, r.1 as int) == trim(s@),
{
    let n: usize = s.len();
    let mut a: usize = 0;
    while a < n && char_is_whitespace(s[a])
        invariant
            n == s.len(),
            a <= n,
            forall|i: int| 0 <= i < a ==> is_whitespace(#[trigger] s@[i]),
        decreases n - a,
    {
        a += 1;
    }
    let mut b: usize = n;
    while b > a && char_is_whitespace(s[b - 1])
        invariant
            n == s.len(),
            a <= b <= n,
            forall|i: int| b <= i < n ==> is_whitespace(#[trigger] s@[i]),
        decreases b,
    {
        b -= 1;
    }
    proof {
        let tail = s@.subrange(a as int, n as int);
        lemma_trim_start_is_suffix(s@, a as int);
        lemma_trim_end_is_prefix(tail, b - a);
        assert(tail.subrange(0, b - a) =~= s@.subrange(a as int, b as int));
    }
    (a, b)
}

/// Computes [`normalized`].
pub fn normalize(text: &str) -> (r: Vec<char>)
    ensures
        r@ == normalized(text@),
{
    let chars = chars_of(text);
    let (a, b) = trim_bounds(&chars);
    let mut out: Vec<char> = Vec::new();
    let mut i: usize = a;
    while i < b
        invariant
            a <= i <= b <= chars.len(),
            out.len() == i - a,
            forall|j: int| 0 <= j < out.len() ==> out@[j] == ascii_lower(chars@[a + j]),
        decreases b - i,
    {
        out.push(char_to_ascii_lowercase(chars[i]));
        i += 1;
    }
    assert(out@ =~= to_ascii_lowercase(chars@.subrange(a as int, b as int)));
    out
}

/// Whether `a` and `b` hold the same characters.
pub fn chars_equal(a: &Vec<char>, b: &Vec<char>) -> (r: bool)
    ensures
        r == (a@ == b@),
{
    if a.len() != b.len() {
        return false;
    }
    let mut i: usize = 0;
    while i < a.len()
        invariant
            a.len() == b.len(),
            i <= a.len(),
            forall|j: int| 0 <= j < i ==> a@[j] == b@[j],
        decreases a.len() - i,
    {
        if a[i] != b[i] {
            return false;
        }
        i += 1;
    }
    assert(a@ =~= b@);
    true
}

/// Whether `a` and `b` are the same string.
pub fn str_equal(a: &str, b: &str) -> (r: bool)
    ensures
        r == (a@ == b@),
{
    chars_equal(&chars_of(a), &chars_of(b))
}

/// Computes [`ends_with`].
pub fn str_ends_with(s: &str, suffix: &str) -> (r: bool)
    ensures
        r == ends_with(s@, suffix@),
{
    let text = chars_of(s);
    let tail = chars_of(suffix);
    if tail.len() > text.len() {
        return false;
    }
    let off: usize = text.len() - tail.len();
    let mut i: usize = 0;
    while i < tail.len()
        invariant
            text@ == s@,
            tail@ == suffix@,
            off + tail.len() == text.len(),
            i <= tail.len(),
            forall|j: int| 0 <= j < i ==> text@[off + j] == tail@[j],
        decreases tail.len() - i,
    {
        if text[off + i] != tail[i] {
            assert(text@.subrange(off as int, text.len() as int)[i as int] != tail@[i as int]);
            return false;
        }
        i += 1;
    }
    assert(text@.subrange(off as int, text.len() as int) =~= tail@);
    true
}

} // verus!
