//! Display helpers: greedy word wrapping of character names for narrow
//! UI labels.

use vstd::prelude::*;
use vstd::string::StringSliceAdditionalSpecFns;
use crate::text::{
    chars_of, char_is_whitespace, char_utf8_len, is_whitespace_char, spec_char_utf8_len,
    string_from_chars, subvec,
};

verus! {

/// The whitespace-separated words of `s`, in order.
pub open spec fn spec_words(s: Seq<char>) -> Seq<Seq<char>>
    decreases s.len(),
{
    if s.len() == 0 {
        Seq::empty()
    } else {
        let w = spec_words(s.drop_last());
        let c = s.last();
        if is_whitespace_char(c) {
            w
        } else if s.len() >= 2 && !is_whitespace_char(s[s.len() - 2]) {
            w.update(w.len() - 1, w.last().push(c))
        } else {
            w.push(seq![c])
        }
    }
}

/// The UTF-8 byte length of a character sequence.
pub open spec fn utf8_len_of(w: Seq<char>) -> int
    decreases w.len(),
{
    if w.len() == 0 {
        0
    } else {
        utf8_len_of(w.drop_last()) + spec_char_utf8_len(w.last())
    }
}

/// The greedy fold of words into lines: the closed lines so far and the
/// open line. A word that would push the open line past `max` bytes
/// (counting the joining space) closes it and starts the next one.
pub open spec fn wrap_fold(ws: Seq<Seq<char>>, max: int) -> (Seq<Seq<char>>, Seq<char>)
    decreases ws.len(),
{
    if ws.len() == 0 {
        (Seq::empty(), Seq::empty())
    } else {
        let (ls, cur) = wrap_fold(ws.drop_last(), max);
        let w = ws.last();
        if cur.len() > 0 && utf8_len_of(cur) + 1 + utf8_len_of(w) > max {
            (ls.push(cur), w)
        } else if cur.len() > 0 {
            (ls, cur + seq![' '] + w)
        } else {
            (ls, w)
        }
    }
}

/// Lines joined with newlines.
pub open spec fn join_lines(ls: Seq<Seq<char>>) -> Seq<char>
    decreases ls.len(),
{
    if ls.len() == 0 {
        Seq::empty()
    } else if ls.len() == 1 {
        ls[0]
    } else {
        join_lines(ls.drop_last()) + seq!['\n'] + ls.last()
    }
}

/// What wrapping yields for a name that is longer than `max` bytes: the
/// name itself when it holds no words, otherwise its words greedily
/// folded into lines and joined with newlines.
pub open spec fn wrap_spec(s: Seq<char>, max: int) -> Seq<char> {
    let ws = spec_words(s);
    if ws.len() == 0 {
        s
    } else {
        let folded = wrap_fold(ws, max);
        let ls = if folded.1.len() > 0 {
            folded.0.push(folded.1)
        } else {
            folded.0
        };
        join_lines(ls)
    }
}

/// A sequence ending in a non-whitespace character holds at least one
/// word.
proof fn lemma_words_nonempty(s: Seq<char>)
    requires
        s.len() > 0,
        !is_whitespace_char(s.last()),
    ensures
        spec_words(s).len() >= 1,
    decreases s.len(),
{
    if s.len() >= 2 && !is_whitespace_char(s[s.len() - 2]) {
        assert(s.drop_last().last() == s[s.len() - 2]);
        lemma_words_nonempty(s.drop_last());
    }
}

/// The UTF-8 length of a sequence is between zero and four bytes per
/// character.
proof fn lemma_utf8_len_bound(w: Seq<char>)
    ensures
        0 <= utf8_len_of(w) <= 4 * w.len(),
    decreases w.len(),
{
    if w.len() > 0 {
        lemma_utf8_len_bound(w.drop_last());
    }
}

/// The UTF-8 byte length of the characters in `w`.
fn utf8_len_vec(w: &Vec<char>) -> (r: u128)
    ensures
        r == utf8_len_of(w@),
        r <= 4 * w@.len(),
{
    let mut r: u128 = 0;
    let n = w.len();
    for k in 0..n
        invariant
            n == w@.len(),
            r == utf8_len_of(w@.take(k as int)),
            r <= 4 * k,
    {
        proof {
            assert(w@.take(k as int + 1).drop_last() =~= w@.take(k as int));
            assert(w@.take(k as int + 1).last() == w@[k as int]);
        }
        r = r + char_utf8_len(w[k]) as u128;
    }
    proof {
        assert(w@.take(n as int) =~= w@);
    }
    r
}

/// Appends the characters of `src` to `dst`.
fn append_chars(dst: &mut Vec<char>, src: &Vec<char>)
    ensures
        final(dst)@ == old(dst)@ + src@,
{
    let n = src.len();
    for k in 0..n
        invariant
            n == src@.len(),
            dst@ == old(dst)@ + src@.take(k as int),
    {
        dst.push(src[k]);
        proof {
            assert(old(dst)@ + src@.take(k as int + 1) =~= (old(dst)@ + src@.take(k as int)).push(
                src@[k as int],
            ));
        }
    }
    proof {
        assert(old(dst)@ + src@.take(n as int) =~= old(dst)@ + src@);
    }
}

/// Wraps a character name into lines of at most `max_line_length` bytes,
/// breaking greedily at whitespace. A name that already fits, or holds no
/// words, comes back unchanged.
pub fn wrap_character_name(name: &str, max_line_length: usize) -> (r: String)
    ensures
        name.spec_bytes().len() as usize <= max_line_length ==> r@ == name@,
        name.spec_bytes().len() as usize > max_line_length ==> r@ == wrap_spec(
            name@,
            max_line_length as int,
        ),
{
    if name.len() <= max_line_length {
        return name.to_owned();
    }
    let v = chars_of(name);
    let n = v.len();

    let mut words: Vec<Vec<char>> = Vec::new();
    for j in 0..n
        invariant
            n == v@.len(),
            words@.len() == spec_words(v@.take(j as int)).len(),
            forall|i: int| 0 <= i < words@.len() ==> #[trigger] words@[i]@ == spec_words(
                v@.take(j as int),
            )[i],
    {
        let ghost prefix = v@.take(j as int);
        let ghost prefix1 = v@.take(j as int + 1);
        proof {
            assert(prefix1.drop_last() =~= prefix);
            assert(prefix1.last() == v@[j as int]);
        }
        let c = v[j];
        if !char_is_whitespace(c) {
            let prev_ws = if j == 0 {
                true
            } else {
                char_is_whitespace(v[j - 1])
            };
            proof {
                if j > 0 {
                    assert(prefix1[j as int - 1] == v@[j as int - 1]);
                }
            }
            if prev_ws {
                let mut nw: Vec<char> = Vec::new();
                nw.push(c);
                words.push(nw);
                proof {
                    assert(nw@ =~= seq![v@[j as int]]);
                }
            } else {
                proof {
                    assert(prefix.last() == v@[j as int - 1]);
                    lemma_words_nonempty(prefix);
                }
                let wl = words.len();
                let last_word = &mut words[wl - 1];
                last_word.push(c);
            }
        }
    }
    proof {
        assert(v@.take(n as int) =~= v@);
    }

    if words.len() == 0 {
        return name.to_owned();
    }

    let ghost ws = spec_words(v@);
    let ghost max = max_line_length as int;
    proof {
        lemma_words_total_bound(v@);
    }
    let mut lines: Vec<Vec<char>> = Vec::new();
    let mut current: Vec<char> = Vec::new();
    let mut current_len: u128 = 0;
    let wcount = words.len();
    for wi in 0..wcount
        invariant
            wcount == words@.len() == ws.len(),
            forall|i: int| 0 <= i < ws.len() ==> #[trigger] words@[i]@ == ws[i],
            max == max_line_length as int,
            lines@.len() == wrap_fold(ws.take(wi as int), max).0.len(),
            forall|i: int| 0 <= i < lines@.len() ==> #[trigger] lines@[i]@ == wrap_fold(
                ws.take(wi as int),
                max,
            ).0[i],
            current@ == wrap_fold(ws.take(wi as int), max).1,
            current_len == utf8_len_of(current@),
            current@.len() <= v@.len() + 1,
            current_len <= 4 * (v@.len() + 1),
            v@.len() <= usize::MAX,
            words_total(ws) <= v@.len() + 1,
    {
        let ghost pre_fold = wrap_fold(ws.take(wi as int), max);
        proof {
            assert(ws.take(wi as int + 1).drop_last() =~= ws.take(wi as int));
            assert(ws.take(wi as int + 1).last() == ws[wi as int]);
        }
        let wlen = utf8_len_vec(&words[wi]);
        let word_chars = words[wi].len();
        proof {
            lemma_utf8_len_bound(ws[wi as int]);
        }
        if current.len() > 0 && current_len + 1 + wlen > max_line_length as u128 {
            lines.push(current);
            current = subvec(&words[wi], 0, word_chars);
            current_len = wlen;
            proof {
                assert(current@ =~= ws[wi as int]);
            }
        } else if current.len() > 0 {
            current.push(' ');
            proof {
                assert(spec_char_utf8_len(' ') == 1);
                assert(current@.drop_last() =~= pre_fold.1);
            }
            current_len = current_len + 1;
            let ghost with_space = current@;
            append_chars(&mut current, &words[wi]);
            current_len = current_len + wlen;
            proof {
                assert(current@ =~= pre_fold.1 + seq![' '] + ws[wi as int]);
                lemma_utf8_append(with_space, ws[wi as int]);
                assert(utf8_len_of(with_space) == utf8_len_of(pre_fold.1) + 1) by {
                    assert(with_space.drop_last() =~= pre_fold.1);
                    assert(with_space.last() == ' ');
                }
            }
        } else {
            current = subvec(&words[wi], 0, word_chars);
            current_len = wlen;
            proof {
                assert(current@ =~= ws[wi as int]);
            }
        }
        proof {
            lemma_fold_cur_bound(ws.take(wi as int + 1), max);
            lemma_words_total_take_le(ws, wi as int + 1);
            lemma_utf8_len_bound(current@);
        }
    }
    proof {
        assert(ws.take(wcount as int) =~= ws);
    }

    if current.len() > 0 {
        lines.push(current);
    }

    let mut out: Vec<char> = Vec::new();
    let lcount = lines.len();
    let ghost lseq = lines@.map_values(|l: Vec<char>| l@);
    for li in 0..lcount
        invariant
            lcount == lines@.len(),
            lseq == lines@.map_values(|l: Vec<char>| l@),
            lseq.len() == lines@.len(),
            forall|i: int| 0 <= i < lines@.len() ==> #[trigger] lseq[i] == lines@[i]@,
            out@ == join_lines(lseq.take(li as int)),
    {
        proof {
            assert(lseq.take(li as int + 1).drop_last() =~= lseq.take(li as int));
            assert(lseq.take(li as int + 1).last() == lseq[li as int]);
        }
        if li > 0 {
            out.push('\n');
        }
        append_chars(&mut out, &lines[li]);
        proof {
            if li == 0 {
                assert(Seq::<char>::empty() + lseq[0] =~= lseq[0]);
                assert(join_lines(lseq.take(1)) == lseq.take(1)[0]);
                assert(out@ =~= lseq[0]);
            } else {
                assert(out@ =~= join_lines(lseq.take(li as int)) + seq!['\n'] + lseq[li as int]);
            }
        }
    }
    proof {
        assert(lseq.take(lcount as int) =~= lseq);
        let folded = wrap_fold(ws, max);
        if folded.1.len() > 0 {
            assert(lseq =~= folded.0.push(folded.1));
        } else {
            assert(lseq =~= folded.0);
        }
    }
    string_from_chars(&out)
}

/// UTF-8 length distributes over concatenation.
proof fn lemma_utf8_append(a: Seq<char>, b: Seq<char>)
    ensures
        utf8_len_of(a + b) == utf8_len_of(a) + utf8_len_of(b),
    decreases b.len(),
{
    if b.len() == 0 {
        assert(a + b =~= a);
    } else {
        assert((a + b).drop_last() =~= a + b.drop_last());
        assert((a + b).last() == b.last());
        lemma_utf8_append(a, b.drop_last());
    }
}

/// The total footprint of a word list: each word's length plus one
/// separator.
pub open spec fn words_total(ws: Seq<Seq<char>>) -> int
    decreases ws.len(),
{
    if ws.len() == 0 {
        0
    } else {
        words_total(ws.drop_last()) + ws.last().len() + 1
    }
}

proof fn lemma_words_total_nonneg(ws: Seq<Seq<char>>)
    ensures
        words_total(ws) >= 0,
    decreases ws.len(),
{
    if ws.len() > 0 {
        lemma_words_total_nonneg(ws.drop_last());
    }
}

/// The words of `s` fit in `s` itself, separators included.
proof fn lemma_words_total_bound(s: Seq<char>)
    ensures
        words_total(spec_words(s)) <= s.len() + if s.len() > 0 && !is_whitespace_char(s.last()) {
            1int
        } else {
            0int
        },
    decreases s.len(),
{
    if s.len() > 0 {
        lemma_words_total_bound(s.drop_last());
        let w = spec_words(s.drop_last());
        let c = s.last();
        if is_whitespace_char(c) {
        } else if s.len() >= 2 && !is_whitespace_char(s[s.len() - 2]) {
            assert(s.drop_last().last() == s[s.len() - 2]);
            lemma_words_nonempty(s.drop_last());
            let merged = w.update(w.len() - 1, w.last().push(c));
            assert(merged.drop_last() =~= w.drop_last());
            assert(merged.last() == w.last().push(c));
            assert(words_total(merged) == words_total(w.drop_last()) + w.last().len() + 2);
            assert(words_total(w) == words_total(w.drop_last()) + w.last().len() + 1);
        } else {
            let pushed = w.push(seq![c]);
            assert(pushed.drop_last() =~= w);
            assert(words_total(pushed) == words_total(w) + 2);
            if s.len() >= 2 {
                assert(s.drop_last().last() == s[s.len() - 2]);
            }
        }
    }
}

/// A prefix of the word list has no larger a footprint.
proof fn lemma_words_total_take_le(ws: Seq<Seq<char>>, j: int)
    requires
        0 <= j <= ws.len(),
    ensures
        words_total(ws.take(j)) <= words_total(ws),
    decreases ws.len() - j,
{
    if j < ws.len() {
        assert(ws.take(j + 1).drop_last() =~= ws.take(j));
        assert(ws.take(j + 1).last() == ws[j]);
        lemma_words_total_take_le(ws, j + 1);
    } else {
        assert(ws.take(j) =~= ws);
    }
}

/// The open line of the greedy fold fits in the words' footprint.
proof fn lemma_fold_cur_bound(ws: Seq<Seq<char>>, max: int)
    ensures
        wrap_fold(ws, max).1.len() <= words_total(ws),
    decreases ws.len(),
{
    if ws.len() > 0 {
        lemma_fold_cur_bound(ws.drop_last(), max);
        lemma_words_total_nonneg(ws.drop_last());
    }
}

} // verus!
