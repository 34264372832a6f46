use vstd::prelude::*;

verus! {

/// Whether `c` has the Unicode property `White_Space`, as `char::is_whitespace`
/// reports it.
pub uninterp spec fn char_is_whitespace(c: char) -> bool;

/// Whether `c` has the Unicode property `Uppercase`, as `char::is_uppercase`
/// reports it.
pub uninterp spec fn char_is_uppercase(c: char) -> bool;

/// The characters that `char::to_lowercase` yields for `c`, in order.
pub uninterp spec fn char_lowercase(c: char) -> Seq<char>;

/// `char::is_whitespace` depends on the character alone; its answer is taken as
/// the meaning of [`char_is_whitespace`].
pub assume_specification[ char::is_whitespace ](c: char) -> (b: bool)
    ensures
        b == char_is_whitespace(c),
;

/// `char::is_uppercase` depends on the character alone; its answer is taken as
/// the meaning of [`char_is_uppercase`].
pub assume_specification[ char::is_uppercase ](c: char) -> (b: bool)
    ensures
        b == char_is_uppercase(c),
;

/// `String::push` appends the character at the end and changes nothing else.
pub assume_specification[ String::push ](s: &mut String, ch: char)
    ensures
        final(s)@ == old(s)@.push(ch),
;

/// Collects what `char::to_lowercase` yields for `c`. The mapping is a table of
/// the Unicode standard; the result is taken as the meaning of
/// [`char_lowercase`] and nothing more is claimed of it.
#[verifier::external_body]
pub(crate) fn unicode_lowercase(c: char) -> (lower: Vec<char>)
    ensures
        lower@ == char_lowercase(c),
{
    c.to_lowercase().collect()
}

/// Whether `c` is an ASCII character.
pub open spec fn is_ascii(c: char) -> bool {
    c <= '\u{7f}'
}

/// Whether `c` is white space: among the ASCII characters the space and the
/// five from the tab to the carriage return, beyond ASCII what the Unicode
/// tables of the standard library call white space.
pub open spec fn is_white_space(c: char) -> bool {
    if is_ascii(c) {
        c == ' ' || ('\t' <= c && c <= '\r')
    } else {
        char_is_whitespace(c)
    }
}

/// Whether `c` is an uppercase character: among the ASCII characters the
/// letters `A` to `Z`, beyond ASCII what the Unicode tables of the standard
/// library call uppercase.
pub open spec fn is_upper_case(c: char) -> bool {
    if is_ascii(c) {
        'A' <= c && c <= 'Z'
    } else {
        char_is_uppercase(c)
    }
}

/// An ASCII letter in lower case; any other character as it is.
pub open spec fn ascii_lower(c: char) -> char {
    if 'A' <= c && c <= 'Z' {
        ((c as int) + 32) as char
    } else {
        c
    }
}

/// The lower-case form of `c`: for ASCII the ASCII rule, beyond ASCII what the
/// Unicode tables of the standard library give, which may be several
/// characters.
pub open spec fn lowercase(c: char) -> Seq<char> {
    if is_ascii(c) {
        seq![ascii_lower(c)]
    } else {
        char_lowercase(c)
    }
}

/// Whether `c` is white space.
pub fn check_whitespace(c: char) -> (b: bool)
    ensures
        b == is_white_space(c),
{
    if c <= '\u{7f}' {
        c == ' ' || (c >= '\t' && c <= '\r')
    } else {
        c.is_whitespace()
    }
}

/// Whether `c` is an uppercase character.
pub fn check_uppercase(c: char) -> (b: bool)
    ensures
        b == is_upper_case(c),
{
    if c <= '\u{7f}' {
        c >= 'A' && c <= 'Z'
    } else {
        c.is_uppercase()
    }
}

/// An ASCII letter in lower case; any other character as it is.
pub fn lower_ascii(c: char) -> (l: char)
    ensures
        l == ascii_lower(c),
{
    if c >= 'A' && c <= 'Z' {
        ((c as u8) + 32u8) as char
    } else {
        c
    }
}

/// The lower-case form of `c`.
pub fn lowercase_chars(c: char) -> (lower: Vec<char>)
    ensures
        lower@ == lowercase(c),
{
    if c <= '\u{7f}' {
        let mut lower: Vec<char> = Vec::new();
        lower.push(lower_ascii(c));
        lower
    } else {
        unicode_lowercase(c)
    }
}

/// The characters of `s`, in order.
pub fn chars_of(s: &str) -> (v: Vec<char>)
    ensures
        v@ == s@,
{
    let mut v: Vec<char> = Vec::new();
    for c in it: s.chars()
        invariant
            v@ == it.seq().take(it.index() as int),
            it.seq() == s@,
    {
        v.push(c);
    }
    v
}

/// The string made of the characters `v[from..to]`, in order.
pub fn string_of(v: &Vec<char>, from: usize, to: usize) -> (s: String)
    requires
        from <= to <= v.len(),
    ensures
        s@ == v@.subrange(from as int, to as int),
{
    let mut s = String::new();
    let mut i: usize = from;
    while i < to
        invariant
            from <= i <= to <= v.len(),
            s@ == v@.subrange(from as int, i as int),
        decreases to - i,
    {
        s.push(v[i]);
        i += 1;
    }
    s
}

/// Whether `a` and `b` hold the same characters.
pub fn same_text(a: &str, b: &str) -> (same: bool)
    ensures
        same == (a@ == b@),
{
    let x = chars_of(a);
    let y = chars_of(b);
    if x.len() != y.len() {
        return false;
    }
    let mut i: usize = 0;
    while i < x.len()
        invariant
            i <= x.len(),
            x.len() == y.len(),
            x@ == a@,
            y@ == b@,
            x@.take(i as int) == y@.take(i as int),
        decreases x.len() - i,
    {
        if x[i] != y[i] {
            return false;
        }
        assert(x@.take(i + 1) == x@.take(i as int).push(x@[i as int]));
        assert(y@.take(i + 1) == y@.take(i as int).push(y@[i as int]));
        i += 1;
    }
    assert(x@.take(x.len() as int) == x@);
    assert(y@.take(y.len() as int) == y@);
    true
}

} // verus!
