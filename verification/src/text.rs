use vstd::prelude::*;
use crate::chars::{check_whitespace, chars_of, is_white_space, string_of};

verus! {

/// `s` without its leading white space.
pub open spec fn trim_start(s: Seq<char>) -> Seq<char>
    decreases s.len(),
{
    if s.len() > 0 && is_white_space(s[0]) {
        trim_start(s.drop_first())
    } else {
        s
    }
}

/// `s` without its trailing white space.
pub open spec fn trim_end(s: Seq<char>) -> Seq<char>
    decreases s.len(),
{
    if s.len() > 0 && is_white_space(s.last()) {
        trim_end(s.drop_last())
    } else {
        s
    }
}

/// `s` without its leading and trailing white space.
pub open spec fn trimmed(s: Seq<char>) -> Seq<char> {
    trim_end(trim_start(s))
}

/// The length of the run of characters other than white space that `s` starts with.
pub open spec fn word_len(s: Seq<char>) -> nat
    decreases s.len(),
{
    if s.len() > 0 && !is_white_space(s[0]) {
        1 + word_len(s.drop_first())
    } else {
        0
    }
}

/// The words of `s`: its maximal runs of characters other than white space,
/// from left to right.
pub open spec fn words(s: Seq<char>) -> Seq<Seq<char>>
    decreases s.len(),
    via words_decreases
{
    if s.len() == 0 {
        Seq::empty()
    } else if is_white_space(s[0]) {
        words(s.drop_first())
    } else {
        seq![s.take(word_len(s) as int)] + words(s.skip(word_len(s) as int))
    }
}

#[via_fn]
proof fn words_decreases(s: Seq<char>) {
    lemma_word_len_bounds(s);
}

/// Whether `w` is non-empty and free of white space.
pub open spec fn is_word(w: Seq<char>) -> bool {
    &&& w.len() > 0
    &&& forall|i: int| 0 <= i < w.len() ==> !is_white_space(#[trigger] w[i])
}

/// The parts in order, with `sep` between each two neighbours.
pub open spec fn joined(parts: Seq<Seq<char>>, sep: Seq<char>) -> Seq<char>
    decreases parts.len(),
{
    if parts.len() == 0 {
        Seq::empty()
    } else if parts.len() == 1 {
        parts[0]
    } else {
        joined(parts.drop_last(), sep) + sep + parts.last()
    }
}

/// `s` with every line feed replaced by a space.
pub open spec fn on_one_line(s: Seq<char>) -> Seq<char> {
    s.map_values(|c: char| if c == '\n' { ' ' } else { c })
}

/// The run that `s` starts with lies within `s`, holds no white space, and
/// ends at white space or at the end of `s`.
pub proof fn lemma_word_len_bounds(s: Seq<char>)
    ensures
        word_len(s) <= s.len(),
        forall|i: int| 0 <= i < word_len(s) ==> !is_white_space(#[trigger] s[i]),
        word_len(s) < s.len() ==> is_white_space(s[word_len(s) as int]),
    decreases s.len(),
{
    if s.len() > 0 && !is_white_space(s[0]) {
        let rest = s.drop_first();
        lemma_word_len_bounds(rest);
        assert forall|i: int| 0 <= i < word_len(s) implies !is_white_space(
            #[trigger] s[i],
        ) by {
            if i > 0 {
                assert(s[i] == rest[i - 1]);
            }
        }
        if word_len(s) < s.len() {
            assert(s[word_len(s) as int] == rest[word_len(rest) as int]);
        }
    }
}

/// Every word is non-empty and free of white space.
pub proof fn lemma_words_are_words(s: Seq<char>)
    ensures
        forall|k: int| 0 <= k < words(s).len() ==> is_word(#[trigger] words(s)[k]),
    decreases s.len(),
{
    if s.len() == 0 {
        assert(words(s).len() == 0);
    } else if is_white_space(s[0]) {
        lemma_words_are_words(s.drop_first());
        assert(words(s) == words(s.drop_first()));
    } else {
        let n = word_len(s) as int;
        lemma_word_len_bounds(s);
        lemma_words_are_words(s.skip(n));
        assert(words(s) == seq![s.take(n)] + words(s.skip(n)));
        let first = s.take(n);
        let rest = words(s.skip(n));
        assert(is_word(first));
        assert forall|k: int| 0 <= k < words(s).len() implies is_word(#[trigger] words(s)[k]) by {
            if k == 0 {
                assert(words(s)[0] == first);
            } else {
                assert(words(s)[k] == rest[k - 1]);
            }
        }
    }
}

/// `s` without its leading and trailing white space.
pub fn trim(s: &str) -> (t: String)
    ensures
        t@ == trimmed(s@),
{
    let cs = chars_of(s);
    let n = cs.len();
    let mut from: usize = 0;
    assert(cs@.skip(0) == cs@);
    while from < n && check_whitespace(cs[from])
        invariant
            from <= n,
            n == cs.len(),
            trim_start(cs@) == trim_start(cs@.skip(from as int)),
        decreases n - from,
    {
        assert(cs@.skip(from as int).drop_first() == cs@.skip(from + 1));
        from += 1;
    }
    let ghost body = cs@.skip(from as int);
    assert(trim_start(cs@) == body);
    let mut to: usize = n;
    assert(body == cs@.subrange(from as int, to as int));
    while to > from && check_whitespace(cs[to - 1])
        invariant
            from <= to <= n,
            n == cs.len(),
            trim_end(body) == trim_end(cs@.subrange(from as int, to as int)),
        decreases to - from,
    {
        assert(cs@.subrange(from as int, to as int).drop_last() == cs@.subrange(
            from as int,
            to - 1,
        ));
        to -= 1;
    }
    string_of(&cs, from, to)
}

/// The words of `s`, from left to right.
pub fn split_words(s: &str) -> (out: Vec<String>)
    ensures
        out.deep_view() == words(s@),
        forall|k: int| 0 <= k < out.len() ==> is_word(#[trigger] out.deep_view()[k]),
{
    let cs = chars_of(s);
    let n = cs.len();
    let mut out: Vec<String> = Vec::new();
    let mut i: usize = 0;
    assert(cs@.skip(0) == cs@);
    assert(out.deep_view() == Seq::<Seq<char>>::empty());
    while i < n
        invariant
            i <= n,
            n == cs.len(),
            cs@ == s@,
            out.deep_view() + words(cs@.skip(i as int)) == words(s@),
        decreases n - i,
    {
        let ghost here = cs@.skip(i as int);
        if check_whitespace(cs[i]) {
            assert(here.drop_first() == cs@.skip(i + 1));
            i += 1;
        } else {
            let mut j: usize = i + 1;
            assert(here.drop_first() == cs@.skip(i + 1));
            while j < n && !check_whitespace(cs[j])
                invariant
                    i < j <= n,
                    n == cs.len(),
                    here == cs@.skip(i as int),
                    word_len(here) == (j - i) + word_len(cs@.skip(j as int)),
                decreases n - j,
            {
                assert(cs@.skip(j as int).drop_first() == cs@.skip(j + 1));
                j += 1;
            }
            assert(word_len(here) == j - i);
            let word = string_of(&cs, i, j);
            assert(word@ == here.take(word_len(here) as int));
            assert(here.skip(word_len(here) as int) == cs@.skip(j as int));
            let ghost before = out.deep_view();
            out.push(word);
            assert(out.deep_view() == before.push(word@));
            assert(before.push(word@) + words(cs@.skip(j as int)) == before + (seq![word@]
                + words(cs@.skip(j as int))));
            i = j;
        }
    }
    assert(words(cs@.skip(n as int)) == Seq::<Seq<char>>::empty());
    assert(out.deep_view() + Seq::<Seq<char>>::empty() == out.deep_view());
    proof {
        lemma_words_are_words(s@);
    }
    out
}

/// Appends the parts to `out`, with `sep` between each two neighbours.
pub fn push_joined(out: &mut String, parts: &Vec<String>, sep: &str)
    ensures
        final(out)@ == old(out)@ + joined(parts.deep_view(), sep@),
{
    let ghost all = parts.deep_view();
    let mut i: usize = 0;
    assert(all.take(0) == Seq::<Seq<char>>::empty());
    assert(out@ + Seq::<char>::empty() == out@);
    while i < parts.len()
        invariant
            i <= parts.len(),
            all == parts.deep_view(),
            out@ == old(out)@ + joined(all.take(i as int), sep@),
        decreases parts.len() - i,
    {
        let ghost before = out@;
        if i > 0 {
            out.append(sep);
        }
        out.append(parts[i].as_str());
        proof {
            let upto = all.take(i + 1);
            assert(upto.drop_last() == all.take(i as int));
            assert(upto.last() == parts@[i as int]@);
            if i > 0 {
                assert(out@ == old(out)@ + (joined(all.take(i as int), sep@) + sep@
                    + parts@[i as int]@));
            } else {
                assert(upto.len() == 1);
                assert(joined(upto, sep@) == upto[0]);
            }
        }
        i += 1;
    }
    assert(all.take(parts.len() as int) == all);
}

/// Appends `s` to `out`, each line feed replaced by a space.
pub fn push_on_one_line(out: &mut String, s: &str)
    ensures
        final(out)@ == old(out)@ + on_one_line(s@),
{
    let cs = chars_of(s);
    let ghost flat = on_one_line(s@);
    let mut i: usize = 0;
    assert(flat.take(0) == Seq::<char>::empty());
    assert(out@ + Seq::<char>::empty() == out@);
    while i < cs.len()
        invariant
            i <= cs.len(),
            cs@ == s@,
            flat == on_one_line(s@),
            out@ == old(out)@ + flat.take(i as int),
        decreases cs.len() - i,
    {
        let c = cs[i];
        if c == '\n' {
            out.push(' ');
        } else {
            out.push(c);
        }
        assert(flat.take(i + 1) == flat.take(i as int).push(flat[i as int]));
        i += 1;
    }
    assert(flat.take(cs.len() as int) == flat);
}

} // verus!
