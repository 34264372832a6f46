use vstd::prelude::*;
use crate::chars::{chars_of, lowercase, lowercase_chars, string_of};
use crate::pokeapi::PokeApiClient;

verus! {

/// Whether `c` may stand in an identifier besides the hyphen: a lowercase
/// ASCII letter or an ASCII digit.
pub open spec fn is_slug_char(c: char) -> bool {
    ('a' <= c && c <= 'z') || ('0' <= c && c <= '9')
}

/// Whether `c` separates the parts of a display name.
pub open spec fn is_separator(c: char) -> bool {
    c == ' ' || c == '-' || c == '_' || c == '/' || c == ':'
}

/// The female sign.
pub open spec fn female_sign() -> char {
    '\u{2640}'
}

/// The male sign.
pub open spec fn male_sign() -> char {
    '\u{2642}'
}

/// The vowel that a lower-case accented vowel stands for: `a`, `e`, `i`, `o`
/// or `u` for each of its accented forms among the letters of the blocks
/// Latin-1 Supplement and Latin Extended-A (grave, acute, circumflex, tilde,
/// diaeresis, ring, macron, breve, ogonek, dot, caron, double acute). `None`
/// for every other character.
pub open spec fn plain_vowel(c: char) -> Option<char> {
    if ('\u{e0}' <= c && c <= '\u{e5}') || c == '\u{101}' || c == '\u{103}' || c == '\u{105}' {
        Some('a')
    } else if ('\u{e8}' <= c && c <= '\u{eb}') || c == '\u{113}' || c == '\u{115}' || c
        == '\u{117}' || c == '\u{119}' || c == '\u{11b}' {
        Some('e')
    } else if ('\u{ec}' <= c && c <= '\u{ef}') || c == '\u{129}' || c == '\u{12b}' || c
        == '\u{12d}' || c == '\u{12f}' {
        Some('i')
    } else if ('\u{f2}' <= c && c <= '\u{f6}') || c == '\u{14d}' || c == '\u{14f}' || c
        == '\u{151}' {
        Some('o')
    } else if ('\u{f9}' <= c && c <= '\u{fc}') || c == '\u{169}' || c == '\u{16b}' || c
        == '\u{16d}' || c == '\u{16f}' || c == '\u{171}' || c == '\u{173}' {
        Some('u')
    } else {
        None
    }
}

/// The identifier built so far, after the lower-case character `c` has been read.
///
/// A gender sign becomes `f` or `m`, set off by a hyphen from what stands before
/// it. An accented vowel loses its accent. Letters and digits are kept. A
/// separator becomes a hyphen unless it would lead the identifier or double a
/// hyphen. Everything else is dropped.
pub open spec fn slug_push(out: Seq<char>, c: char) -> Seq<char> {
    if c == female_sign() || c == male_sign() {
        let letter = if c == female_sign() { 'f' } else { 'm' };
        if out.len() > 0 && out.last() != '-' {
            out.push('-').push(letter)
        } else {
            out.push(letter)
        }
    } else if plain_vowel(c) is Some {
        out.push(plain_vowel(c)->0)
    } else if is_slug_char(c) {
        out.push(c)
    } else if is_separator(c) && out.len() > 0 && out.last() != '-' {
        out.push('-')
    } else {
        out
    }
}

/// The identifier built so far, after the lower-case characters `cs` have been read.
pub open spec fn slug_extend(out: Seq<char>, cs: Seq<char>) -> Seq<char>
    decreases cs.len(),
{
    if cs.len() == 0 {
        out
    } else {
        slug_push(slug_extend(out, cs.drop_last()), cs.last())
    }
}

/// The identifier built from all of `s`, before a trailing hyphen is removed.
pub open spec fn slug_scan(s: Seq<char>) -> Seq<char>
    decreases s.len(),
{
    if s.len() == 0 {
        Seq::empty()
    } else {
        slug_extend(slug_scan(s.drop_last()), lowercase(s.last()))
    }
}

/// `out` without a hyphen at its end.
pub open spec fn without_trailing_hyphen(out: Seq<char>) -> Seq<char> {
    if out.len() > 0 && out.last() == '-' {
        out.drop_last()
    } else {
        out
    }
}

/// The identifier of the lookup service for the display name `s`.
pub open spec fn normalized(s: Seq<char>) -> Seq<char> {
    without_trailing_hyphen(slug_scan(s))
}

/// Letters, digits and hyphens only; no hyphen in front; no two hyphens in a row.
pub open spec fn is_open_slug(s: Seq<char>) -> bool {
    &&& forall|i: int| 0 <= i < s.len() ==> is_slug_char(#[trigger] s[i]) || s[i] == '-'
    &&& s.len() > 0 ==> s[0] != '-'
    &&& forall|i: int| 0 < i < s.len() ==> !(s[i - 1] == '-' && #[trigger] s[i] == '-')
}

/// A well-formed identifier: lowercase ASCII letters, digits and single
/// hyphens, with no hyphen at either end.
pub open spec fn is_slug(s: Seq<char>) -> bool {
    &&& is_open_slug(s)
    &&& s.len() > 0 ==> s.last() != '-'
}

proof fn lemma_push_keeps_open(out: Seq<char>, c: char)
    requires
        is_open_slug(out),
    ensures
        is_open_slug(slug_push(out, c)),
{
}

proof fn lemma_extend_keeps_open(out: Seq<char>, cs: Seq<char>)
    requires
        is_open_slug(out),
    ensures
        is_open_slug(slug_extend(out, cs)),
    decreases cs.len(),
{
    if cs.len() > 0 {
        lemma_extend_keeps_open(out, cs.drop_last());
        lemma_push_keeps_open(slug_extend(out, cs.drop_last()), cs.last());
    }
}

proof fn lemma_scan_is_open(s: Seq<char>)
    ensures
        is_open_slug(slug_scan(s)),
    decreases s.len(),
{
    if s.len() > 0 {
        lemma_scan_is_open(s.drop_last());
        lemma_extend_keeps_open(slug_scan(s.drop_last()), lowercase(s.last()));
    }
}

/// Whatever the name, its identifier holds only lowercase ASCII letters,
/// digits and single hyphens, and neither starts nor ends with a hyphen.
pub proof fn lemma_normalized_is_slug(s: Seq<char>)
    ensures
        is_slug(normalized(s)),
{
    lemma_scan_is_open(s);
}

proof fn lemma_scan_of_open_slug(s: Seq<char>)
    requires
        is_open_slug(s),
    ensures
        slug_scan(s) == s,
    decreases s.len(),
{
    if s.len() > 0 {
        let front = s.drop_last();
        let c = s.last();
        assert(is_open_slug(front)) by {
            assert forall|i: int| 0 <= i < front.len() implies is_slug_char(#[trigger] front[i])
                || front[i] == '-' by {
                assert(front[i] == s[i]);
            }
            assert forall|i: int| 0 < i < front.len() implies !(front[i - 1] == '-'
                && #[trigger] front[i] == '-') by {
                assert(front[i] == s[i]);
                assert(front[i - 1] == s[i - 1]);
            }
            if front.len() > 0 {
                assert(front[0] == s[0]);
            }
        }
        lemma_scan_of_open_slug(front);
        assert(is_slug_char(s[s.len() - 1]) || s[s.len() - 1] == '-');
        assert(lowercase(c) == seq![c]);
        assert(lowercase(c).drop_last() == Seq::<char>::empty());
        assert(slug_extend(front, lowercase(c)) == slug_push(front, c)) by {
            reveal_with_fuel(slug_extend, 2);
        }
        if c == '-' {
            if front.len() > 0 {
                assert(front.last() == s[s.len() - 2]);
                assert(!(s[s.len() - 1 - 1] == '-' && s[s.len() - 1] == '-'));
            } else {
                assert(s[0] == c);
            }
        }
        assert(slug_push(front, c) == front.push(c));
        assert(front.push(c) == s);
    }
}

/// Normalizing a well-formed identifier gives it back unchanged.
pub proof fn lemma_slug_is_fixed(s: Seq<char>)
    requires
        is_slug(s),
    ensures
        normalized(s) == s,
{
    lemma_scan_of_open_slug(s);
}

/// Normalizing twice gives what normalizing once gives.
pub proof fn lemma_normalized_idempotent(s: Seq<char>)
    ensures
        normalized(normalized(s)) == normalized(s),
{
    lemma_normalized_is_slug(s);
    lemma_slug_is_fixed(normalized(s));
}

/// The vowel that a lower-case accented vowel stands for.
pub fn plain_vowel_of(c: char) -> (vowel: Option<char>)
    ensures
        vowel == plain_vowel(c),
{
    if (c >= '\u{e0}' && c <= '\u{e5}') || c == '\u{101}' || c == '\u{103}' || c == '\u{105}' {
        Some('a')
    } else if (c >= '\u{e8}' && c <= '\u{eb}') || c == '\u{113}' || c == '\u{115}' || c
        == '\u{117}' || c == '\u{119}' || c == '\u{11b}' {
        Some('e')
    } else if (c >= '\u{ec}' && c <= '\u{ef}') || c == '\u{129}' || c == '\u{12b}' || c
        == '\u{12d}' || c == '\u{12f}' {
        Some('i')
    } else if (c >= '\u{f2}' && c <= '\u{f6}') || c == '\u{14d}' || c == '\u{14f}' || c
        == '\u{151}' {
        Some('o')
    } else if (c >= '\u{f9}' && c <= '\u{fc}') || c == '\u{169}' || c == '\u{16b}' || c
        == '\u{16d}' || c == '\u{16f}' || c == '\u{171}' || c == '\u{173}' {
        Some('u')
    } else {
        None
    }
}

/// Reads one lower-case character into the identifier built so far.
pub fn push_lowercase(out: &mut Vec<char>, c: char)
    ensures
        final(out)@ == slug_push(old(out)@, c),
{
    let n = out.len();
    let open = n > 0 && out[n - 1] != '-';
    if c == '\u{2640}' || c == '\u{2642}' {
        if open {
            out.push('-');
        }
        if c == '\u{2640}' {
            out.push('f');
        } else {
            out.push('m');
        }
    } else if let Some(vowel) = plain_vowel_of(c) {
        out.push(vowel);
    } else if (c >= 'a' && c <= 'z') || (c >= '0' && c <= '9') {
        out.push(c);
    } else if (c == ' ' || c == '-' || c == '_' || c == '/' || c == ':') && open {
        out.push('-');
    }
}

impl PokeApiClient {
    /// Turns a display name into the identifier under which the lookup service
    /// knows the creature: lower case, single hyphens between its parts,
    /// accents and punctuation removed.
    pub fn normalize_pokemon_name(name: &str) -> (slug: String)
        ensures
            slug@ == normalized(name@),
            is_slug(slug@),
    {
        let cs = chars_of(name);
        let mut out: Vec<char> = Vec::new();
        let mut i: usize = 0;
        assert(cs@.take(0) == Seq::<char>::empty());
        while i < cs.len()
            invariant
                i <= cs.len(),
                out@ == slug_scan(cs@.take(i as int)),
            decreases cs.len() - i,
        {
            let ghost before = out@;
            let lower = lowercase_chars(cs[i]);
            let mut k: usize = 0;
            assert(lower@.take(0) == Seq::<char>::empty());
            while k < lower.len()
                invariant
                    k <= lower.len(),
                    out@ == slug_extend(before, lower@.take(k as int)),
                decreases lower.len() - k,
            {
                push_lowercase(&mut out, lower[k]);
                assert(lower@.take(k + 1).drop_last() == lower@.take(k as int));
                k += 1;
            }
            assert(lower@.take(lower.len() as int) == lower@);
            assert(cs@.take(i + 1).drop_last() == cs@.take(i as int));
            i += 1;
        }
        assert(cs@.take(cs.len() as int) == cs@);
        proof {
            lemma_normalized_is_slug(name@);
        }
        let n = out.len();
        if n > 0 && out[n - 1] == '-' {
            assert(out@.subrange(0, n - 1) == out@.drop_last());
            string_of(&out, 0, n - 1)
        } else {
            assert(out@.subrange(0, n as int) == out@);
            string_of(&out, 0, n)
        }
    }
}

} // verus!
