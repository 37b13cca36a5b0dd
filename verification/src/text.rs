//! Small operations on text: white space, trimming, prefixes and suffixes.

use vstd::prelude::*;

verus! {

/// Whether `c` is white space: the code points that Unicode gives the
/// property `White_Space`.
pub open spec fn is_white_space(c: char) -> bool {
    let u = c as u32;
    ||| 0x09 <= u <= 0x0D
    ||| u == 0x20
    ||| u == 0x85
    ||| u == 0xA0
    ||| u == 0x1680
    ||| 0x2000 <= u <= 0x200A
    ||| u == 0x2028
    ||| u == 0x2029
    ||| u == 0x202F
    ||| u == 0x205F
    ||| u == 0x3000
}

/// Whether `c` is white space.
pub fn is_whitespace_char(c: char) -> (r: bool)
    ensures
        r == is_white_space(c),
{
    let u: u32 = c as u32;
    (0x09 <= u && u <= 0x0D) || u == 0x20 || u == 0x85 || u == 0xA0 || u == 0x1680 || (0x2000 <= u
        && u <= 0x200A) || u == 0x2028 || u == 0x2029 || u == 0x202F || u == 0x205F || u == 0x3000
}

/// The first index at or after `i` that holds no white space, or the length
/// of `s` where there is none.
pub open spec fn skip_leading(s: Seq<char>, i: int) -> int
    decreases s.len() - i,
{
    if 0 <= i < s.len() && is_white_space(s[i]) {
        skip_leading(s, i + 1)
    } else {
        i
    }
}

/// The end of the part of `s` between `lo` and `j` once the white space at
/// its end is dropped.
pub open spec fn skip_trailing(s: Seq<char>, lo: int, j: int) -> int
    decreases j,
{
    if 0 <= lo < j <= s.len() && is_white_space(s[j - 1]) {
        skip_trailing(s, lo, j - 1)
    } else {
        j
    }
}

/// `s` without the white space at its start and at its end.
pub open spec fn trimmed(s: Seq<char>) -> Seq<char> {
    let a = skip_leading(s, 0);
    let b = skip_trailing(s, a, s.len() as int);
    if a <= b {
        s.subrange(a, b)
    } else {
        Seq::empty()
    }
}

/// Whether `s` ends with `suffix`.
pub open spec fn has_suffix(s: Seq<char>, suffix: Seq<char>) -> bool {
    s.len() >= suffix.len() && s.subrange(s.len() - suffix.len(), s.len() as int) == suffix
}

/// Whether `s` starts with `prefix`.
pub open spec fn has_prefix(s: Seq<char>, prefix: Seq<char>) -> bool {
    s.len() >= prefix.len() && s.subrange(0, prefix.len() as int) == prefix
}

proof fn lemma_skip_leading(s: Seq<char>, i: int, a: int)
    requires
        0 <= i <= a <= s.len(),
        forall|k: int| i <= k < a ==> is_white_space(s[k]),
        a < s.len() ==> !is_white_space(s[a]),
    ensures
        skip_leading(s, i) == a,
    decreases a - i,
{
    if i < a {
        lemma_skip_leading(s, i + 1, a);
    }
}

proof fn lemma_skip_trailing(s: Seq<char>, lo: int, j: int, b: int)
    requires
        0 <= lo <= b <= j <= s.len(),
        forall|k: int| b <= k < j ==> is_white_space(s[k]),
        lo < b ==> !is_white_space(s[b - 1]),
    ensures
        skip_trailing(s, lo, j) == b,
    decreases j - b,
{
    if b < j {
        lemma_skip_trailing(s, lo, j - 1, b);
    }
}

/// The characters of `s`, in order.
pub fn chars_of(s: &str) -> (r: Vec<char>)
    ensures
        r@ == s@,
{
    let mut out: Vec<char> = Vec::new();
    for c in it: s.chars()
        invariant
            it.seq() == s@,
            out@ == s@.take(it.index() as int),
    {
        out.push(c);
    }
    out
}

/// `s` without the white space at its start and at its end.
pub fn trim(s: &str) -> (r: &str)
    ensures
        r@ == trimmed(s@),
{
    let chars = chars_of(s);
    let n = chars.len();
    let mut a: usize = 0;
    while a < n && is_whitespace_char(chars[a])
        invariant
            n == chars@.len(),
            a <= n,
            forall|k: int| 0 <= k < a ==> is_white_space(chars@[k]),
        decreases n - a,
    {
        a += 1;
    }
    let mut b: usize = n;
    while a < b && is_whitespace_char(chars[b - 1])
        invariant
            n == chars@.len(),
            a <= b <= n,
            forall|k: int| b <= k < n ==> is_white_space(chars@[k]),
        decreases b,
    {
        b -= 1;
    }
    proof {
        lemma_skip_leading(s@, 0, a as int);
        lemma_skip_trailing(s@, a as int, n as int, b as int);
    }
    s.substring_char(a, b)
}

/// `s` without `suffix` at its end, where it ends with it.
pub fn strip_suffix<'a>(s: &'a str, suffix: &str) -> (r: Option<&'a str>)
    ensures
        match r {
            Some(head) => has_suffix(s@, suffix@) && head@ == s@.subrange(
                0,
                s@.len() - suffix@.len(),
            ),
            None => !has_suffix(s@, suffix@),
        },
{
    let chars = chars_of(s);
    let tail = chars_of(suffix);
    let n = chars.len();
    let m = tail.len();
    if n < m {
        return None;
    }
    let start = n - m;
    let mut i: usize = 0;
    while i < m
        invariant
            n == chars@.len(),
            m == tail@.len(),
            start + m == n,
            i <= m,
            chars@ == s@,
            tail@ == suffix@,
            forall|k: int| 0 <= k < i ==> chars@[start + k] == tail@[k],
        decreases m - i,
    {
        if chars[start + i] != tail[i] {
            assert(s@.subrange(start as int, n as int)[i as int] != suffix@[i as int]);
            return None;
        }
        i += 1;
    }
    assert(s@.subrange(start as int, n as int) =~= suffix@);
    Some(s.substring_char(0, start))
}

/// `s` without `prefix` at its start, where it starts with it.
pub fn strip_prefix<'a>(s: &'a str, prefix: &str) -> (r: Option<&'a str>)
    ensures
        match r {
            Some(rest) => has_prefix(s@, prefix@) && rest@ == s@.subrange(
                prefix@.len() as int,
                s@.len() as int,
            ),
            None => !has_prefix(s@, prefix@),
        },
{
    let chars = chars_of(s);
    let head = chars_of(prefix);
    let n = chars.len();
    let m = head.len();
    if n < m {
        return None;
    }
    let mut i: usize = 0;
    while i < m
        invariant
            n == chars@.len(),
            m == head@.len(),
            m <= n,
            i <= m,
            chars@ == s@,
            head@ == prefix@,
            forall|k: int| 0 <= k < i ==> chars@[k] == head@[k],
        decreases m - i,
    {
        if chars[i] != head[i] {
            assert(s@.subrange(0, m as int)[i as int] != prefix@[i as int]);
            return None;
        }
        i += 1;
    }
    assert(s@.subrange(0, m as int) =~= prefix@);
    Some(s.substring_char(m, n))
}

/// Whether the two texts hold the same characters.
pub fn same_text(a: &str, b: &str) -> (r: bool)
    ensures
        r == (a@ == b@),
{
    let x = String::from_str(a);
    let y = String::from_str(b);
    x == y
}

/// Whether `needle` is one of `items`.
pub fn contains_text(items: &Vec<String>, needle: &String) -> (r: bool)
    ensures
        r == (exists|i: int| 0 <= i < items@.len() && items@[i]@ == needle@),
{
    let mut i: usize = 0;
    while i < items.len()
        invariant
            i <= items@.len(),
            forall|k: int| 0 <= k < i ==> items@[k]@ != needle@,
        decreases items@.len() - i,
    {
        if items[i] == *needle {
            return true;
        }
        i += 1;
    }
    false
}

/// The texts of a list of strings, in order.
pub open spec fn texts(items: Seq<String>) -> Seq<Seq<char>> {
    Seq::new(items.len(), |i: int| items[i]@)
}

/// The texts that `items` holds, as a set.
pub open spec fn text_set(items: Seq<String>) -> Set<Seq<char>> {
    Set::new(|t: Seq<char>| exists|i: int| 0 <= i < items.len() && items[i]@ == t)
}

} // verus!
