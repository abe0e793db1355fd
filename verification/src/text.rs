//! Decimal rendering of numbers and the small fixed name tables the engine
//! and the exporters share.

use vstd::prelude::*;

verus! {

/// The character for one decimal digit.
pub open spec fn digit_char(d: int) -> char {
    if d == 0 {
        '0'
    } else if d == 1 {
        '1'
    } else if d == 2 {
        '2'
    } else if d == 3 {
        '3'
    } else if d == 4 {
        '4'
    } else if d == 5 {
        '5'
    } else if d == 6 {
        '6'
    } else if d == 7 {
        '7'
    } else if d == 8 {
        '8'
    } else {
        '9'
    }
}

/// The decimal rendering of `n`, most significant digit first, no leading
/// zeros except for `n == 0` itself.
pub open spec fn spec_decimal(n: int) -> Seq<char>
    decreases n,
{
    if n < 10 {
        seq![digit_char(n)]
    } else {
        spec_decimal(n / 10).push(digit_char(n % 10))
    }
}

/// One decimal digit as a string slice.
fn digit_str(d: u64) -> (r: &'static str)
    requires
        d < 10,
    ensures
        r@ == seq![digit_char(d as int)],
{
    proof {
        reveal_strlit("0");
        reveal_strlit("1");
        reveal_strlit("2");
        reveal_strlit("3");
        reveal_strlit("4");
        reveal_strlit("5");
        reveal_strlit("6");
        reveal_strlit("7");
        reveal_strlit("8");
        reveal_strlit("9");
    }
    let r = if d == 0 {
        "0"
    } else if d == 1 {
        "1"
    } else if d == 2 {
        "2"
    } else if d == 3 {
        "3"
    } else if d == 4 {
        "4"
    } else if d == 5 {
        "5"
    } else if d == 6 {
        "6"
    } else if d == 7 {
        "7"
    } else if d == 8 {
        "8"
    } else {
        "9"
    };
    proof {
        assert(r@ =~= seq![digit_char(d as int)]);
    }
    r
}

/// Renders `n` in decimal.
pub fn u64_to_string(n: u64) -> (s: String)
    ensures
        s@ == spec_decimal(n as int),
    decreases n,
{
    if n < 10 {
        String::from_str(digit_str(n))
    } else {
        let mut s = u64_to_string(n / 10);
        s.append(digit_str(n % 10));
        s
    }
}

/// Renders `n` in decimal.
pub fn u32_to_string(n: u32) -> (s: String)
    ensures
        s@ == spec_decimal(n as int),
{
    u64_to_string(n as u64)
}

/// Whether a character counts as whitespace, by the Unicode
/// `White_Space` property.
pub uninterp spec fn is_whitespace_char(c: char) -> bool;

/// Relies on char::is_whitespace: true exactly for characters with the
/// Unicode `White_Space` property, a function of the character alone.
#[verifier::external_body]
pub fn char_is_whitespace(c: char) -> (r: bool)
    ensures
        r == is_whitespace_char(c),
{
    c.is_whitespace()
}

/// Relies on String::push: appends one character at the end.
#[verifier::external_body]
pub fn push_char(s: &mut String, c: char)
    ensures
        final(s)@ == old(s)@.push(c),
{
    s.push(c);
}

/// The number of bytes a character occupies in UTF-8.
pub open spec fn spec_char_utf8_len(c: char) -> int {
    if (c as u32) < 0x80 {
        1
    } else if (c as u32) < 0x800 {
        2
    } else if (c as u32) < 0x10000 {
        3
    } else {
        4
    }
}

/// Relies on char::len_utf8: one byte below U+0080, two below U+0800,
/// three below U+10000, four above.
#[verifier::external_body]
pub fn char_utf8_len(c: char) -> (r: usize)
    ensures
        r == spec_char_utf8_len(c),
{
    c.len_utf8()
}

/// The characters of a string slice.
pub fn chars_of(s: &str) -> (v: Vec<char>)
    ensures
        v@ == s@,
{
    let n = s.unicode_len();
    let mut v: Vec<char> = Vec::new();
    for i in 0..n
        invariant
            n == s@.len(),
            v@.len() == i,
            forall|j: int| 0 <= j < i ==> #[trigger] v@[j] == s@[j],
    {
        v.push(s.get_char(i));
    }
    proof {
        assert(v@ =~= s@);
    }
    v
}

/// A string holding the given characters.
pub fn string_from_chars(v: &Vec<char>) -> (s: String)
    ensures
        s@ == v@,
{
    let mut s = String::new();
    let n = v.len();
    for i in 0..n
        invariant
            n == v@.len(),
            s@ == v@.take(i as int),
    {
        push_char(&mut s, v[i]);
        proof {
            assert(v@.take(i as int).push(v@[i as int]) =~= v@.take(i as int + 1));
        }
    }
    proof {
        assert(v@.take(n as int) =~= v@);
    }
    s
}

/// `s` without leading whitespace.
pub open spec fn trim_start_ws(s: Seq<char>) -> Seq<char>
    decreases s.len(),
{
    if s.len() > 0 && is_whitespace_char(s[0]) {
        trim_start_ws(s.drop_first())
    } else {
        s
    }
}

/// `s` without trailing whitespace.
pub open spec fn trim_end_ws(s: Seq<char>) -> Seq<char>
    decreases s.len(),
{
    if s.len() > 0 && is_whitespace_char(s.last()) {
        trim_end_ws(s.drop_last())
    } else {
        s
    }
}

/// Strips whitespace from both ends of `v`'s range `[a0, b0)`, returning
/// the trimmed bounds.
pub fn trim_ws_range(v: &Vec<char>, a0: usize, b0: usize) -> (r: (usize, usize))
    requires
        a0 <= b0 <= v@.len(),
    ensures
        a0 <= r.0 <= r.1 <= b0,
        v@.subrange(r.0 as int, r.1 as int) == trim_end_ws(
            trim_start_ws(v@.subrange(a0 as int, b0 as int)),
        ),
{
    let mut a = a0;
    while a < b0
        invariant
            a0 <= a <= b0 <= v@.len(),
            trim_start_ws(v@.subrange(a0 as int, b0 as int)) == trim_start_ws(
                v@.subrange(a as int, b0 as int),
            ),
        ensures
            a0 <= a <= b0 <= v@.len(),
            trim_start_ws(v@.subrange(a0 as int, b0 as int)) == v@.subrange(a as int, b0 as int),
        decreases b0 - a,
    {
        if !char_is_whitespace(v[a]) {
            proof {
                assert(v@.subrange(a as int, b0 as int)[0] == v@[a as int]);
            }
            break;
        }
        proof {
            assert(v@.subrange(a as int, b0 as int)[0] == v@[a as int]);
            assert(v@.subrange(a as int, b0 as int).drop_first() =~= v@.subrange(
                a as int + 1,
                b0 as int,
            ));
        }
        a = a + 1;
    }
    let mut b = b0;
    while b > a
        invariant
            a <= b <= b0 <= v@.len(),
            trim_start_ws(v@.subrange(a0 as int, b0 as int)) == v@.subrange(a as int, b0 as int),
            trim_end_ws(v@.subrange(a as int, b0 as int)) == trim_end_ws(
                v@.subrange(a as int, b as int),
            ),
        ensures
            a <= b <= b0 <= v@.len(),
            trim_start_ws(v@.subrange(a0 as int, b0 as int)) == v@.subrange(a as int, b0 as int),
            trim_end_ws(v@.subrange(a as int, b0 as int)) == v@.subrange(a as int, b as int),
        decreases b,
    {
        if !char_is_whitespace(v[b - 1]) {
            proof {
                assert(v@.subrange(a as int, b as int).last() == v@[b - 1]);
            }
            break;
        }
        proof {
            assert(v@.subrange(a as int, b as int).last() == v@[b - 1]);
            assert(v@.subrange(a as int, b as int).drop_last() =~= v@.subrange(
                a as int,
                b as int - 1,
            ));
        }
        b = b - 1;
    }
    (a, b)
}

/// A copy of the characters from `a` (inclusive) to `b` (exclusive).
pub fn subvec(v: &Vec<char>, a: usize, b: usize) -> (r: Vec<char>)
    requires
        a <= b <= v@.len(),
    ensures
        r@ == v@.subrange(a as int, b as int),
{
    let mut r: Vec<char> = Vec::new();
    for i in a..b
        invariant
            a <= b <= v@.len(),
            r@.len() == i - a,
            forall|j: int| a <= j < i ==> #[trigger] v@[j] == r@[j - a],
    {
        r.push(v[i]);
    }
    proof {
        assert(r@ =~= v@.subrange(a as int, b as int));
    }
    r
}

} // verus!
