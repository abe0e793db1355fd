//! The local update-channel configuration: a small line-based file whose
//! `beta` key switches the updater between the stable and the beta
//! release channel. Only the parsing lives here; reading and writing the
//! file, and the network side of updating, happen outside the library.

use vstd::prelude::*;
use crate::text::{chars_of, char_is_whitespace, is_whitespace_char, trim_end_ws, trim_start_ws, trim_ws_range};

verus! {

/// The parsed local update configuration.
#[derive(Clone, Copy, Debug)]
pub struct LocalUpdateConfig {
    pub beta: bool,
}

impl Default for LocalUpdateConfig {
    /// The stable channel.
    fn default() -> (c: LocalUpdateConfig)
        ensures
            c.beta == false,
    {
        LocalUpdateConfig { beta: false }
    }
}

/// Case-insensitive equality of two ASCII characters; characters outside
/// the ASCII letters compare exactly.
pub open spec fn ascii_char_eq_ci(x: char, y: char) -> bool {
    let xv = x as u32;
    let yv = y as u32;
    ||| xv == yv
    ||| (65 <= xv <= 90 && yv == xv + 32)
    ||| (65 <= yv <= 90 && xv == yv + 32)
}

/// Case-insensitive equality of two character sequences.
pub open spec fn ascii_eq_ci(a: Seq<char>, b: Seq<char>) -> bool {
    a.len() == b.len() && forall|i: int| 0 <= i < a.len() ==> ascii_char_eq_ci(
        #[trigger] a[i],
        b[i],
    )
}

/// The first position at or after `from` holding `c`, or the length.
pub open spec fn first_char_from(s: Seq<char>, c: char, from: int) -> int
    decreases s.len() - from,
{
    if from >= s.len() || from < 0 {
        s.len() as int
    } else if s[from] == c {
        from
    } else {
        first_char_from(s, c, from + 1)
    }
}

/// Whether a character is a single or double quote.
pub open spec fn is_quote_char(c: char) -> bool {
    c == '"' || c == '\''
}

/// `s` without leading quotes.
pub open spec fn quotes_trim_start(s: Seq<char>) -> Seq<char>
    decreases s.len(),
{
    if s.len() > 0 && is_quote_char(s[0]) {
        quotes_trim_start(s.drop_first())
    } else {
        s
    }
}

/// `s` without trailing quotes.
pub open spec fn quotes_trim_end(s: Seq<char>) -> Seq<char>
    decreases s.len(),
{
    if s.len() > 0 && is_quote_char(s.last()) {
        quotes_trim_end(s.drop_last())
    } else {
        s
    }
}

/// A normalized value that switches the beta channel on.
pub open spec fn is_truthy(v: Seq<char>) -> bool {
    ||| ascii_eq_ci(v, "true"@)
    ||| ascii_eq_ci(v, "1"@)
    ||| ascii_eq_ci(v, "yes"@)
    ||| ascii_eq_ci(v, "on"@)
}

/// A normalized value that switches the beta channel off.
pub open spec fn is_falsy(v: Seq<char>) -> bool {
    ||| ascii_eq_ci(v, "false"@)
    ||| ascii_eq_ci(v, "0"@)
    ||| ascii_eq_ci(v, "no"@)
    ||| ascii_eq_ci(v, "off"@)
}

/// What one line decides: nothing (comment, blank, no `=`, or another
/// key), a channel setting, or a rejected value.
pub open spec fn eval_line(seg: Seq<char>) -> Option<Result<bool, ()>> {
    let cut = seg.take(first_char_from(seg, '#', 0));
    let t = trim_end_ws(trim_start_ws(cut));
    if t.len() == 0 {
        None
    } else {
        let e = first_char_from(t, '=', 0);
        if e == t.len() {
            None
        } else {
            let key = trim_end_ws(trim_start_ws(t.take(e)));
            if !ascii_eq_ci(key, "beta"@) {
                None
            } else {
                let value = t.subrange(e + 1, t.len() as int);
                let norm = quotes_trim_end(quotes_trim_start(
                    trim_end_ws(trim_start_ws(value)),
                ));
                if is_truthy(norm) {
                    Some(Ok(true))
                } else if is_falsy(norm) {
                    Some(Ok(false))
                } else {
                    Some(Err(()))
                }
            }
        }
    }
}

/// Folds the file's lines from position `pos` (line index `idx`): the
/// first line that decides the key wins; a rejected value reports its
/// one-based line number; a file that never decides is the stable
/// channel.
pub open spec fn parse_from(s: Seq<char>, pos: int, idx: int) -> Result<bool, int>
    decreases s.len() - pos,
    via parse_from_decreases
{
    if pos < 0 || pos > s.len() {
        Ok(false)
    } else {
        let nl = first_char_from(s, '\n', pos);
        match eval_line(s.subrange(pos, nl)) {
            Some(Ok(b)) => Ok(b),
            Some(Err(_)) => Err(idx + 1),
            None => if nl >= s.len() {
                Ok(false)
            } else {
                parse_from(s, nl + 1, idx + 1)
            },
        }
    }
}

#[via_fn]
proof fn parse_from_decreases(s: Seq<char>, pos: int, idx: int) {
    if 0 <= pos <= s.len() {
        lemma_first_char_bounds(s, '\n', pos);
    }
}

/// `first_char_from` stays between its start and the length.
proof fn lemma_first_char_bounds(s: Seq<char>, c: char, from: int)
    requires
        0 <= from <= s.len(),
    ensures
        from <= first_char_from(s, c, from) <= s.len(),
    decreases s.len() - from,
{
    if from < s.len() && s[from] != c {
        lemma_first_char_bounds(s, c, from + 1);
    }
}

/// What parsing the whole file yields.
pub open spec fn parse_spec(s: Seq<char>) -> Result<bool, int> {
    parse_from(s, 0, 0)
}

/// Characterizes `first_char_from` by its defining scan.
proof fn lemma_first_char_at(s: Seq<char>, c: char, from: int, k: int)
    requires
        0 <= from <= k <= s.len(),
        forall|j: int| from <= j < k ==> #[trigger] s[j] != c,
        k < s.len() ==> s[k] == c,
    ensures
        first_char_from(s, c, from) == if k < s.len() {
            k
        } else {
            s.len() as int
        },
    decreases k - from,
{
    if from < k {
        lemma_first_char_at(s, c, from + 1, k);
    }
}

/// Finds the first `c` in `v` between `a` and `b`, in absolute indices.
fn find_char(v: &Vec<char>, c: char, a: usize, b: usize) -> (r: usize)
    requires
        a <= b <= v@.len(),
    ensures
        a <= r <= b,
        r - a == first_char_from(v@.subrange(a as int, b as int), c, 0),
        r < b ==> v@[r as int] == c,
        forall|j: int| a <= j < r ==> #[trigger] v@[j] != c,
{
    let ghost t = v@.subrange(a as int, b as int);
    let mut e = a;
    while e < b
        invariant
            a <= e <= b <= v@.len(),
            t == v@.subrange(a as int, b as int),
            forall|j: int| a <= j < e ==> #[trigger] v@[j] != c,
        decreases b - e,
    {
        if v[e] == c {
            proof {
                assert forall|j: int| 0 <= j < e - a implies #[trigger] t[j] != c by {
                    assert(t[j] == v@[a + j]);
                }
                assert(t[e - a] == v@[e as int]);
                lemma_first_char_at(t, c, 0, e - a);
            }
            return e;
        }
        e = e + 1;
    }
    proof {
        assert forall|j: int| 0 <= j < t.len() implies #[trigger] t[j] != c by {
            assert(t[j] == v@[a + j]);
        }
        lemma_first_char_at(t, c, 0, t.len() as int);
    }
    e
}

/// Compares `v`'s range `[a, b)` case-insensitively against `lit`.
fn range_eq_ci(v: &Vec<char>, a: usize, b: usize, lit: &str) -> (r: bool)
    requires
        a <= b <= v@.len(),
    ensures
        r == ascii_eq_ci(v@.subrange(a as int, b as int), lit@),
{
    let ghost t = v@.subrange(a as int, b as int);
    let lc = chars_of(lit);
    let m = lc.len();
    if b - a != m {
        return false;
    }
    for j in 0..m
        invariant
            a <= b <= v@.len(),
            t == v@.subrange(a as int, b as int),
            lc@ == lit@,
            m == lc@.len(),
            b - a == m,
            forall|k: int| 0 <= k < j ==> ascii_char_eq_ci(#[trigger] t[k], lit@[k]),
    {
        let x = v[a + j] as u32;
        let y = lc[j] as u32;
        let ok = x == y || (65 <= x && x <= 90 && y == x + 32) || (65 <= y && y <= 90 && x == y
            + 32);
        proof {
            assert(t[j as int] == v@[a + j]);
        }
        if !ok {
            proof {
                assert(!ascii_char_eq_ci(t[j as int], lit@[j as int]));
            }
            return false;
        }
    }
    true
}

/// Strips single and double quotes from both ends of `v`'s range
/// `[a0, b0)`.
fn quote_trim_range(v: &Vec<char>, a0: usize, b0: usize) -> (r: (usize, usize))
    requires
        a0 <= b0 <= v@.len(),
    ensures
        a0 <= r.0 <= r.1 <= b0,
        v@.subrange(r.0 as int, r.1 as int) == quotes_trim_end(
            quotes_trim_start(v@.subrange(a0 as int, b0 as int)),
        ),
{
    let mut a = a0;
    while a < b0
        invariant
            a0 <= a <= b0 <= v@.len(),
            quotes_trim_start(v@.subrange(a0 as int, b0 as int)) == quotes_trim_start(
                v@.subrange(a as int, b0 as int),
            ),
        ensures
            a0 <= a <= b0 <= v@.len(),
            quotes_trim_start(v@.subrange(a0 as int, b0 as int)) == v@.subrange(
                a as int,
                b0 as int,
            ),
        decreases b0 - a,
    {
        let c = v[a];
        proof {
            assert(v@.subrange(a as int, b0 as int)[0] == v@[a as int]);
        }
        if !(c == '"' || c == '\'') {
            break;
        }
        proof {
            assert(v@.subrange(a as int, b0 as int).drop_first() =~= v@.subrange(
                a as int + 1,
                b0 as int,
            ));
        }
        a = a + 1;
    }
    let mut b = b0;
    while b > a
        invariant
            a <= b <= b0 <= v@.len(),
            quotes_trim_start(v@.subrange(a0 as int, b0 as int)) == v@.subrange(
                a as int,
                b0 as int,
            ),
            quotes_trim_end(v@.subrange(a as int, b0 as int)) == quotes_trim_end(
                v@.subrange(a as int, b as int),
            ),
        ensures
            a <= b <= b0 <= v@.len(),
            quotes_trim_start(v@.subrange(a0 as int, b0 as int)) == v@.subrange(
                a as int,
                b0 as int,
            ),
            quotes_trim_end(v@.subrange(a as int, b0 as int)) == v@.subrange(a as int, b as int),
        decreases b,
    {
        let c = v[b - 1];
        proof {
            assert(v@.subrange(a as int, b as int).last() == v@[b - 1]);
        }
        if !(c == '"' || c == '\'') {
            break;
        }
        proof {
            assert(v@.subrange(a as int, b as int).drop_last() =~= v@.subrange(
                a as int,
                b as int - 1,
            ));
        }
        b = b - 1;
    }
    (a, b)
}

impl LocalUpdateConfig {
    /// Parses the configuration text. The first effective `beta` line
    /// decides the channel; an unrecognized value is rejected with its
    /// one-based line number; a file with no effective `beta` line is the
    /// stable channel.
    pub fn parse(contents: &str) -> (r: Result<bool, usize>)
        ensures
            match r {
                Ok(b) => parse_spec(contents@) == Ok::<bool, int>(b),
                Err(n) => parse_spec(contents@) == Err::<bool, int>(n as int),
            },
    {
        let h = chars_of(contents);
        let hl = h.len();
        let mut pos: usize = 0;
        let mut idx: usize = 0;
        loop
            invariant
                h@ == contents@,
                hl == h@.len(),
                pos <= hl,
                idx <= pos,
                parse_spec(contents@) == parse_from(h@, pos as int, idx as int),
            decreases hl - pos,
        {
            let nl = find_char(&h, '\n', pos, hl);
            let ghost seg = h@.subrange(pos as int, nl as int);
            proof {
                assert(first_char_from(h@, '\n', pos as int) == nl) by {
                    lemma_first_char_at(h@, '\n', pos as int, nl as int);
                }
            }
            let cut_end = find_char(&h, '#', pos, nl);
            proof {
                assert(seg.take(first_char_from(seg, '#', 0)) =~= h@.subrange(
                    pos as int,
                    cut_end as int,
                ));
            }
            let (ta, tb) = trim_ws_range(&h, pos, cut_end);
            let ghost t = h@.subrange(ta as int, tb as int);
            let mut decided: Option<Result<bool, ()>> = None;
            if ta != tb {
                let eqp = find_char(&h, '=', ta, tb);
                if eqp != tb {
                    proof {
                        assert(t.take(first_char_from(t, '=', 0)) =~= h@.subrange(
                            ta as int,
                            eqp as int,
                        ));
                    }
                    let (ka, kb) = trim_ws_range(&h, ta, eqp);
                    if range_eq_ci(&h, ka, kb, "beta") {
                        proof {
                            assert(t.subrange(
                                first_char_from(t, '=', 0) + 1,
                                t.len() as int,
                            ) =~= h@.subrange(eqp as int + 1, tb as int));
                        }
                        let (va, vb) = trim_ws_range(&h, eqp + 1, tb);
                        let (qa, qb) = quote_trim_range(&h, va, vb);
                        let truthy = range_eq_ci(&h, qa, qb, "true") || range_eq_ci(
                            &h,
                            qa,
                            qb,
                            "1",
                        ) || range_eq_ci(&h, qa, qb, "yes") || range_eq_ci(&h, qa, qb, "on");
                        if truthy {
                            decided = Some(Ok(true));
                        } else {
                            let falsy = range_eq_ci(&h, qa, qb, "false") || range_eq_ci(
                                &h,
                                qa,
                                qb,
                                "0",
                            ) || range_eq_ci(&h, qa, qb, "no") || range_eq_ci(&h, qa, qb, "off");
                            if falsy {
                                decided = Some(Ok(false));
                            } else {
                                decided = Some(Err(()));
                            }
                        }
                    }
                }
            }
            proof {
                assert(eval_line(seg) == decided);
            }
            match decided {
                Some(Ok(b)) => {
                    return Ok(b);
                },
                Some(Err(_)) => {
                    return Err(idx + 1);
                },
                None => {},
            }
            if nl >= hl {
                return Ok(false);
            }
            pos = nl + 1;
            idx = idx + 1;
        }
    }
}

} // verus!
