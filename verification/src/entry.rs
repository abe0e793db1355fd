//! Classification of initialization failures. A failure whose message
//! names a missing class is an obfuscation mismatch (the game build moved
//! its symbols); anything else is reported as-is.

use vstd::prelude::*;
use crate::text::{
    chars_of, char_is_whitespace, is_whitespace_char, string_from_chars, subvec, trim_end_ws,
    trim_start_ws, trim_ws_range,
};

verus! {

/// What went wrong during initialization.
#[derive(Clone, Debug)]
pub enum InitErrorInfo {
    ObfuscationMismatch { class_name: Option<String>, message: String },
    Other { message: String },
}

/// A character that ends the extracted class-name token.
pub open spec fn is_sep_char(c: char) -> bool {
    is_whitespace_char(c) || c == ':' || c == ')'
}

/// The first position at or after `from` where `n` occurs in `h`, or `-1`.
pub open spec fn first_match_from(h: Seq<char>, n: Seq<char>, from: int) -> int
    decreases h.len() - from + 1,
{
    if from + n.len() > h.len() || from < 0 {
        -1
    } else if h.subrange(from, from + n.len()) == n {
        from
    } else {
        first_match_from(h, n, from + 1)
    }
}

/// The first position at or after `from` holding a separator, or the
/// length when none does.
pub open spec fn first_sep_from(s: Seq<char>, from: int) -> int
    decreases s.len() - from,
{
    if from >= s.len() || from < 0 {
        s.len() as int
    } else if is_sep_char(s[from]) {
        from
    } else {
        first_sep_from(s, from + 1)
    }
}

/// `s` without leading double quotes.
pub open spec fn trim_start_quotes(s: Seq<char>) -> Seq<char>
    decreases s.len(),
{
    if s.len() > 0 && s[0] == '"' {
        trim_start_quotes(s.drop_first())
    } else {
        s
    }
}

/// `s` without trailing double quotes.
pub open spec fn trim_end_quotes(s: Seq<char>) -> Seq<char>
    decreases s.len(),
{
    if s.len() > 0 && s.last() == '"' {
        trim_end_quotes(s.drop_last())
    } else {
        s
    }
}

/// The class name a message yields: the text between the first
/// `no such class` and the next occurrence (or the end), trimmed of
/// whitespace, cut at the first separator, stripped of quotes; nothing
/// when the needle is absent or the token comes out empty.
pub open spec fn extract_spec(h: Seq<char>) -> Option<Seq<char>> {
    let n = "no such class"@;
    let f = first_match_from(h, n, 0);
    if f < 0 {
        None
    } else {
        let start = f + n.len();
        let nx = first_match_from(h, n, start);
        let seg = if nx < 0 {
            h.subrange(start, h.len() as int)
        } else {
            h.subrange(start, nx)
        };
        let t = trim_end_ws(trim_start_ws(seg));
        let tok = t.take(first_sep_from(t, 0));
        if tok.len() == 0 {
            None
        } else {
            Some(trim_end_quotes(trim_start_quotes(tok)))
        }
    }
}

/// Whether `n` occurs at position `i` of `h`.
fn match_at(h: &Vec<char>, n: &Vec<char>, i: usize) -> (r: bool)
    requires
        i + n@.len() <= h@.len(),
    ensures
        r == (h@.subrange(i as int, i as int + n@.len()) == n@),
{
    let m = n.len();
    let hl = h.len();
    for j in 0..m
        invariant
            m == n@.len(),
            hl == h@.len(),
            i + m <= hl,
            forall|k: int| 0 <= k < j ==> #[trigger] h@[i + k] == n@[k],
    {
        if h[i + j] != n[j] {
            proof {
                let sub = h@.subrange(i as int, i as int + n@.len());
                assert(sub[j as int] == h@[i + j]);
                assert(sub[j as int] != n@[j as int]);
            }
            return false;
        }
    }
    proof {
        assert forall|k: int| 0 <= k < n@.len() implies h@.subrange(
            i as int,
            i as int + n@.len(),
        )[k] == n@[k] by {
            assert(h@[i + k] == n@[k]);
        }
        assert(h@.subrange(i as int, i as int + n@.len()) =~= n@);
    }
    true
}

/// Finds the first occurrence of `n` in `h` at or after `from`.
fn find_from(h: &Vec<char>, n: &Vec<char>, from: usize) -> (r: Option<usize>)
    requires
        n@.len() >= 1,
    ensures
        ({
            let f = first_match_from(h@, n@, from as int);
            match r {
                Some(i) => f == i && from <= i && i + n@.len() <= h@.len(),
                None => f == -1,
            }
        }),
{
    if n.len() > h.len() || from > h.len() - n.len() {
        return None;
    }
    let limit = h.len() - n.len();
    let mut i = from;
    while i <= limit
        invariant
            n@.len() >= 1,
            h@.len() <= usize::MAX,
            limit == h@.len() - n@.len(),
            from <= i,
            i <= limit + 1,
            first_match_from(h@, n@, from as int) == first_match_from(h@, n@, i as int),
        decreases limit + 1 - i,
    {
        if match_at(h, n, i) {
            return Some(i);
        }
        proof {
            assert(first_match_from(h@, n@, i as int) == first_match_from(h@, n@, i as int + 1));
        }
        i = i + 1;
    }
    proof {
        assert(first_match_from(h@, n@, i as int) == -1);
    }
    None
}

/// The first separator position in `v` between `a` and `b`, mirroring
/// [`first_sep_from`] over `v@.subrange(a, b)`.
fn find_sep(v: &Vec<char>, a: usize, b: usize) -> (r: usize)
    requires
        a <= b <= v@.len(),
    ensures
        a <= r <= b,
        r - a == first_sep_from(v@.subrange(a as int, b as int), 0),
{
    let ghost t = v@.subrange(a as int, b as int);
    let mut e = a;
    while e < b
        invariant
            a <= e <= b <= v@.len(),
            t == v@.subrange(a as int, b as int),
            first_sep_from(t, 0) == first_sep_from(t, e - a),
        decreases b - e,
    {
        let c = v[e];
        proof {
            assert(t[e - a] == v@[e as int]);
        }
        if char_is_whitespace(c) || c == ':' || c == ')' {
            proof {
                assert(is_sep_char(t[e - a]));
                assert(first_sep_from(t, e - a) == e - a);
            }
            return e;
        }
        proof {
            assert(!is_sep_char(t[e - a]));
            assert(first_sep_from(t, e - a) == first_sep_from(t, e - a + 1));
        }
        e = e + 1;
    }
    proof {
        assert(first_sep_from(t, e - a) == t.len());
    }
    e
}

/// Strips double quotes from both ends of `v`'s range `[a, b)`.
fn trim_quote_bounds(v: &Vec<char>, a0: usize, b0: usize) -> (r: (usize, usize))
    requires
        a0 <= b0 <= v@.len(),
    ensures
        a0 <= r.0 <= r.1 <= b0,
        v@.subrange(r.0 as int, r.1 as int) == trim_end_quotes(
            trim_start_quotes(v@.subrange(a0 as int, b0 as int)),
        ),
{
    let mut a = a0;
    while a < b0
        invariant
            a0 <= a <= b0 <= v@.len(),
            trim_start_quotes(v@.subrange(a0 as int, b0 as int)) == trim_start_quotes(
                v@.subrange(a as int, b0 as int),
            ),
        ensures
            a0 <= a <= b0 <= v@.len(),
            trim_start_quotes(v@.subrange(a0 as int, b0 as int)) == v@.subrange(
                a as int,
                b0 as int,
            ),
        decreases b0 - a,
    {
        if v[a] != '"' {
            proof {
                assert(v@.subrange(a as int, b0 as int)[0] == v@[a as int]);
            }
            break;
        }
        proof {
            assert(v@.subrange(a as int, b0 as int)[0] == v@[a as int]);
            assert(v@.subrange(a as int, b0 as int).drop_first() =~= v@.subrange(
                a as int + 1,
                b0 as int,
            ));
        }
        a = a + 1;
    }
    let mut b = b0;
    while b > a
        invariant
            a <= b <= b0 <= v@.len(),
            trim_start_quotes(v@.subrange(a0 as int, b0 as int)) == v@.subrange(
                a as int,
                b0 as int,
            ),
            trim_end_quotes(v@.subrange(a as int, b0 as int)) == trim_end_quotes(
                v@.subrange(a as int, b as int),
            ),
        ensures
            a <= b <= b0 <= v@.len(),
            trim_start_quotes(v@.subrange(a0 as int, b0 as int)) == v@.subrange(
                a as int,
                b0 as int,
            ),
            trim_end_quotes(v@.subrange(a as int, b0 as int)) == v@.subrange(a as int, b as int),
        decreases b,
    {
        if v[b - 1] != '"' {
            proof {
                assert(v@.subrange(a as int, b as int).last() == v@[b - 1]);
            }
            break;
        }
        proof {
            assert(v@.subrange(a as int, b as int).last() == v@[b - 1]);
            assert(v@.subrange(a as int, b as int).drop_last() =~= v@.subrange(
                a as int,
                b as int - 1,
            ));
        }
        b = b - 1;
    }
    (a, b)
}

/// Extracts the missing class name from an initialization error message,
/// if the message reports one.
pub fn extract_missing_class(message: &str) -> (r: Option<String>)
    ensures
        match r {
            Some(s) => extract_spec(message@) == Some(s@),
            None => extract_spec(message@) is None,
        },
{
    let h = chars_of(message);
    let needle = chars_of("no such class");
    let hl = h.len();
    proof {
        reveal_strlit("no such class");
        assert(needle@.len() == 13);
    }
    match find_from(&h, &needle, 0) {
        None => None,
        Some(f) => {
            let start = f + needle.len();
            let seg_end = match find_from(&h, &needle, start) {
                Some(j) => j,
                None => hl,
            };
            let (ta, tb) = trim_ws_range(&h, start, seg_end);
            let te = find_sep(&h, ta, tb);
            proof {
                let t = h@.subrange(ta as int, tb as int);
                assert(t.take(te - ta) =~= h@.subrange(ta as int, te as int));
            }
            if te == ta {
                return None;
            }
            let (qa, qb) = trim_quote_bounds(&h, ta, te);
            let cls = subvec(&h, qa, qb);
            Some(string_from_chars(&cls))
        },
    }
}

/// Classifies an initialization failure by its message: a message naming
/// a missing class is an obfuscation mismatch carrying that class name;
/// anything else is reported unchanged.
pub fn classify_init_error(message: &str) -> (r: Option<InitErrorInfo>)
    ensures
        match r {
            Some(InitErrorInfo::ObfuscationMismatch { class_name, message: m }) => {
                &&& m@ == message@
                &&& match class_name {
                    Some(c) => extract_spec(message@) == Some(c@),
                    None => false,
                }
            },
            Some(InitErrorInfo::Other { message: m }) => m@ == message@ && extract_spec(
                message@,
            ) is None,
            None => false,
        },
{
    match extract_missing_class(message) {
        Some(class_name) => Some(InitErrorInfo::ObfuscationMismatch {
            class_name: Some(class_name),
            message: String::from_str(message),
        }),
        None => Some(InitErrorInfo::Other { message: String::from_str(message) }),
    }
}

} // verus!
