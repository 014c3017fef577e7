//! Whitespace tokenisation of a line and rejoining of words.
use vstd::prelude::*;

verus! {

/// The characters that carry the Unicode `White_Space` property, which is
/// what `char::is_whitespace` tests.
pub open spec fn is_white_space(c: char) -> bool {
    let u = c as u32;
    (0x09 <= u <= 0x0d) || u == 0x20 || u == 0x85 || u == 0xa0 || u == 0x1680 || (0x2000 <= u
        <= 0x200a) || u == 0x2028 || u == 0x2029 || u == 0x202f || u == 0x205f || u == 0x3000
}

/// The maximal runs of non-whitespace characters of `s`, in order.
///
/// A non-whitespace character that follows another one extends the last
/// word; any other non-whitespace character starts a new word.
pub open spec fn words(s: Seq<char>) -> Seq<Seq<char>>
    decreases s.len(),
{
    if s.len() == 0 {
        seq![]
    } else {
        let p = s.drop_last();
        let c = s.last();
        let w = words(p);
        if is_white_space(c) {
            w
        } else if p.len() > 0 && !is_white_space(p.last()) {
            w.drop_last().push(w.last().push(c))
        } else {
            w.push(seq![c])
        }
    }
}

/// The words of `ws` joined with a single space between neighbours.
pub open spec fn join_words(ws: Seq<Seq<char>>) -> Seq<char>
    decreases ws.len(),
{
    if ws.len() == 0 {
        seq![]
    } else if ws.len() == 1 {
        ws[0]
    } else {
        join_words(ws.drop_last()) + seq![' '] + ws.last()
    }
}

/// The views of a vector of strings.
pub open spec fn strings_view(v: Seq<String>) -> Seq<Seq<char>> {
    v.map_values(|w: String| w@)
}

/// A string that ends in a non-whitespace character has at least one word.
pub proof fn lemma_words_nonempty(s: Seq<char>)
    requires
        s.len() > 0,
        !is_white_space(s.last()),
    ensures
        words(s).len() > 0,
{
    reveal_with_fuel(words, 2);
}

/// Splitting distributes over a concatenation whose seam is whitespace or an
/// end of the text.
pub proof fn lemma_words_concat(a: Seq<char>, b: Seq<char>)
    requires
        a.len() == 0 || b.len() == 0 || is_white_space(a.last()) || is_white_space(b[0]),
    ensures
        words(a + b) == words(a) + words(b),
    decreases b.len(),
{
    if b.len() == 0 {
        assert(a + b =~= a);
        assert(words(a) + words(b) =~= words(a));
    } else {
        let b2 = b.drop_last();
        let c = b.last();
        assert((a + b).drop_last() =~= a + b2);
        assert((a + b).last() == c);
        lemma_words_concat(a, b2);
        if is_white_space(c) {
        } else if b2.len() > 0 {
            assert((a + b2).last() == b2.last());
            if !is_white_space(b2.last()) {
                lemma_words_nonempty(b2);
                assert(words(a + b) =~= words(a) + words(b));
            } else {
                assert(words(a + b) =~= words(a) + words(b));
            }
        } else {
            assert(a + b2 =~= a);
            assert(words(b2) =~= seq![]);
            assert(words(a + b) =~= words(a) + words(b));
        }
    }
}

/// A non-empty text without whitespace is one word.
pub proof fn lemma_words_single(w: Seq<char>)
    requires
        w.len() > 0,
        forall|i: int| 0 <= i < w.len() ==> !is_white_space(#[trigger] w[i]),
    ensures
        words(w) == seq![w],
    decreases w.len(),
{
    let w2 = w.drop_last();
    if w.len() == 1 {
        assert(words(w2) =~= seq![]);
        assert(seq![w.last()] =~= w);
        assert(words(w) =~= seq![w]);
    } else {
        assert(!is_white_space(w[w.len() - 2]));
        lemma_words_single(w2);
        assert(w2.push(w.last()) =~= w);
        assert(words(w) =~= seq![w]);
    }
}

/// A text of whitespace alone has no words.
pub proof fn lemma_words_blank(s: Seq<char>)
    requires
        forall|i: int| 0 <= i < s.len() ==> is_white_space(#[trigger] s[i]),
    ensures
        words(s) == Seq::<Seq<char>>::empty(),
    decreases s.len(),
{
    if s.len() > 0 {
        lemma_words_blank(s.drop_last());
    }
}

/// Exactly `char::is_whitespace`.
pub fn is_white_space_char(c: char) -> (r: bool)
    ensures
        r == is_white_space(c),
{
    let u = c as u32;
    (0x09 <= u && u <= 0x0d) || u == 0x20 || u == 0x85 || u == 0xa0 || u == 0x1680 || (0x2000
        <= u && u <= 0x200a) || u == 0x2028 || u == 0x2029 || u == 0x202f || u == 0x205f || u
        == 0x3000
}

/// The characters of `s`, in order.
fn chars_of(s: &str) -> (r: Vec<char>)
    ensures
        r@ == s@,
{
    let mut out: Vec<char> = Vec::new();
    for c in it: s.chars()
        invariant
            it.seq() == s@,
            out.len() == it.index(),
            out@ == s@.take(out.len() as int),
    {
        proof {
            assert(s@.take(out.len() as int).push(c) =~= s@.take(out.len() + 1 as int));
        }
        out.push(c);
    }
    proof {
        assert(s@.take(out.len() as int) =~= s@);
    }
    out
}

/// Splits `line` at runs of whitespace, dropping leading and trailing
/// whitespace, as `str::split_whitespace` does.
pub fn split_whitespace(line: &str) -> (r: Vec<String>)
    ensures
        strings_view(r@) == words(line@),
{
    let cs = chars_of(line);
    let n = cs.len();
    let ghost s = line@;
    let mut out: Vec<String> = Vec::new();
    let mut in_word = false;
    let mut start: usize = 0;
    let mut i: usize = 0;
    while i < n
        invariant
            cs@ == s,
            s == line@,
            n == s.len(),
            i <= n,
            start <= i,
            in_word ==> i > 0 && start < i && !is_white_space(s[i - 1]) && words(s.take(i as int))
                == strings_view(out@).push(s.subrange(start as int, i as int)),
            !in_word ==> (i == 0 || is_white_space(s[i - 1])) && words(s.take(i as int))
                == strings_view(out@),
        decreases n - i,
    {
        let c = cs[i];
        proof {
            assert(s.take(i + 1 as int).drop_last() =~= s.take(i as int));
            assert(s.take(i + 1 as int).last() == c);
        }
        if is_white_space_char(c) {
            if in_word {
                let w = line.substring_char(start, i).to_owned();
                proof {
                    assert(strings_view(out@.push(w)) =~= strings_view(out@).push(w@));
                }
                out.push(w);
                in_word = false;
            }
        } else {
            if in_word {
                proof {
                    assert(s.subrange(start as int, i as int).push(c) =~= s.subrange(
                        start as int,
                        i + 1 as int,
                    ));
                }
            } else {
                start = i;
                in_word = true;
                proof {
                    assert(s.subrange(i as int, i + 1 as int) =~= seq![c]);
                }
            }
        }
        i = i + 1;
    }
    proof {
        assert(s.take(n as int) =~= s);
    }
    if in_word {
        let w = line.substring_char(start, n).to_owned();
        proof {
            assert(strings_view(out@.push(w)) =~= strings_view(out@).push(w@));
        }
        out.push(w);
    }
    out
}

/// Joins `ws[from..]` with single spaces.
pub fn join_from(ws: &Vec<String>, from: usize) -> (r: String)
    requires
        from <= ws.len(),
    ensures
        r@ == join_words(strings_view(ws@).skip(from as int)),
{
    let ghost v = strings_view(ws@);
    let mut acc = String::new();
    let mut i: usize = from;
    while i < ws.len()
        invariant
            from <= i <= ws.len(),
            v == strings_view(ws@),
            acc@ == join_words(v.subrange(from as int, i as int)),
        decreases ws.len() - i,
    {
        let ghost next = v.subrange(from as int, i + 1 as int);
        proof {
            assert(next.drop_last() =~= v.subrange(from as int, i as int));
            assert(next.last() == ws@[i as int]@);
        }
        if i > from {
            let sp = " ";
            proof {
                reveal_strlit(" ");
            }
            acc.append(sp);
            acc.append(ws[i].as_str());
            proof {
                assert(acc@ =~= join_words(next));
            }
        } else {
            acc = ws[i].clone();
            proof {
                assert(next.len() == 1);
            }
        }
        i = i + 1;
    }
    proof {
        assert(v.subrange(from as int, ws.len() as int) =~= v.skip(from as int));
    }
    acc
}

} // verus!
