//! Character-level text helpers: trimming, the text after the first colon, and prefixes.

use vstd::prelude::*;

verus! {

/// Unicode `White_Space`, the set that `str::trim` removes.
pub open spec fn is_white_space_spec(c: char) -> bool {
    let u = c as u32;
    ||| (0x9 <= u && u <= 0xd)
    ||| u == 0x20
    ||| u == 0x85
    ||| u == 0xa0
    ||| u == 0x1680
    ||| (0x2000 <= u && u <= 0x200a)
    ||| u == 0x2028
    ||| u == 0x2029
    ||| u == 0x202f
    ||| u == 0x205f
    ||| u == 0x3000
}

pub open spec fn trim_start_spec(s: Seq<char>) -> Seq<char>
    decreases s.len(),
{
    if s.len() > 0 && is_white_space_spec(s[0]) {
        trim_start_spec(s.drop_first())
    } else {
        s
    }
}

pub open spec fn trim_end_spec(s: Seq<char>) -> Seq<char>
    decreases s.len(),
{
    if s.len() > 0 && is_white_space_spec(s.last()) {
        trim_end_spec(s.drop_last())
    } else {
        s
    }
}

/// `s` without its leading and trailing white space.
pub open spec fn trimmed(s: Seq<char>) -> Seq<char> {
    trim_end_spec(trim_start_spec(s))
}

/// `i` is the position of the first colon of `s`.
pub open spec fn is_first_colon(s: Seq<char>, i: int) -> bool {
    &&& 0 <= i < s.len()
    &&& s[i] == ':'
    &&& forall|j: int| 0 <= j < i ==> s[j] != ':'
}

/// Everything after the first colon of `s`, or all of `s` where it has none.
pub open spec fn after_first_colon(s: Seq<char>) -> Seq<char> {
    if exists|i: int| is_first_colon(s, i) {
        let i = choose|i: int| is_first_colon(s, i);
        s.subrange(i + 1, s.len() as int)
    } else {
        s
    }
}

/// The summary kept for display: the text after the first colon, trimmed.
pub open spec fn cleaned_summary(s: Seq<char>) -> Seq<char> {
    trimmed(after_first_colon(s))
}

/// The first `n` characters of `s`, or all of it where it is shorter.
pub open spec fn prefix_of_len(s: Seq<char>, n: int) -> Seq<char> {
    if s.len() <= n {
        s
    } else {
        s.subrange(0, n)
    }
}

pub fn is_white_space(c: char) -> (r: bool)
    ensures
        r == is_white_space_spec(c),
{
    let u = c as u32;
    (0x9 <= u && u <= 0xd) || u == 0x20 || u == 0x85 || u == 0xa0 || u == 0x1680 || (0x2000 <= u
        && u <= 0x200a) || u == 0x2028 || u == 0x2029 || u == 0x202f || u == 0x205f || u == 0x3000
}

/// Removes leading and trailing white space.
pub fn trim(s: &str) -> (r: String)
    ensures
        r@ == trimmed(s@),
{
    let len = s.unicode_len();
    let mut lo: usize = 0;
    assert(s@.subrange(0, len as int) =~= s@);
    while lo < len && is_white_space(s.get_char(lo))
        invariant
            len == s@.len(),
            lo <= len,
            trim_start_spec(s@) == trim_start_spec(s@.subrange(lo as int, len as int)),
        decreases len - lo,
    {
        assert(s@.subrange(lo as int, len as int).drop_first() =~= s@.subrange(
            lo + 1,
            len as int,
        ));
        lo = lo + 1;
    }
    let ghost rest = s@.subrange(lo as int, len as int);
    assert(trim_start_spec(rest) == rest);
    let mut hi: usize = len;
    while hi > lo && is_white_space(s.get_char(hi - 1))
        invariant
            len == s@.len(),
            lo <= hi <= len,
            rest == s@.subrange(lo as int, len as int),
            trim_end_spec(rest) == trim_end_spec(s@.subrange(lo as int, hi as int)),
        decreases hi - lo,
    {
        assert(s@.subrange(lo as int, hi as int).drop_last() =~= s@.subrange(
            lo as int,
            hi - 1,
        ));
        hi = hi - 1;
    }
    String::from_str(s.substring_char(lo, hi))
}

/// Everything after the first colon of `s`, or all of `s` where it has none.
pub fn text_after_first_colon(s: &str) -> (r: &str)
    ensures
        r@ == after_first_colon(s@),
{
    let len = s.unicode_len();
    let mut i: usize = 0;
    while i < len
        invariant
            len == s@.len(),
            i <= len,
            forall|j: int| 0 <= j < i ==> s@[j] != ':',
        decreases len - i,
    {
        if s.get_char(i) == ':' {
            assert(is_first_colon(s@, i as int));
            let ghost k = choose|k: int| is_first_colon(s@, k);
            assert(k == i);
            return s.substring_char(i + 1, len);
        }
        i = i + 1;
    }
    s
}

/// The summary kept for display: the text after the first colon, trimmed.
pub fn clean_summary(summary: &str) -> (r: String)
    ensures
        r@ == cleaned_summary(summary@),
{
    trim(text_after_first_colon(summary))
}

/// The first `n` characters of `s`, or all of it where it is shorter.
pub fn char_prefix(s: &str, n: usize) -> (r: String)
    ensures
        r@ == prefix_of_len(s@, n as int),
{
    let len = s.unicode_len();
    if len <= n {
        String::from_str(s)
    } else {
        String::from_str(s.substring_char(0, n))
    }
}

} // verus!
