use vstd::prelude::*;
use crate::chars::{ascii_lower, chars_of, lower_ascii, same_text};
use crate::json::{json_document, member_text, parse_document, string_member};
use crate::rag::decision::text_view;
use crate::text::{trim, trimmed};

verus! {

/// What the generation service is asked about an image.
pub const IMAGE_PROMPT: &'static str =
    "Look at the attached image and decide whether it shows a Pokemon. Respond with a JSON object exactly in one of these shapes:\n  {\"type\":\"pokemon\",\"name\":\"<name of the Pokemon>\"}\nor\n  {\"type\":\"not_pokemon\",\"reason\":\"<why it is not a Pokemon>\"}\n";

/// The media type of files that are not known to be images.
pub const BINARY_MEDIA_TYPE: &'static str = "application/octet-stream";

/// Whether `s` ends with `suffix`.
pub open spec fn ends_with(s: Seq<char>, suffix: Seq<char>) -> bool {
    s.len() >= suffix.len() && s.skip(s.len() - suffix.len()) == suffix
}

/// `s` with its ASCII letters in lower case.
pub open spec fn ascii_lowered(s: Seq<char>) -> Seq<char> {
    s.map_values(|c: char| ascii_lower(c))
}

/// The media type that the extension of `path` stands for, whatever the case
/// of its letters; the type of plain bytes where it stands for none.
pub open spec fn media_type(path: Seq<char>) -> Seq<char> {
    let lower = ascii_lowered(path);
    if ends_with(lower, ".png"@) {
        "image/png"@
    } else if ends_with(lower, ".jpg"@) || ends_with(lower, ".jpeg"@) {
        "image/jpeg"@
    } else if ends_with(lower, ".webp"@) {
        "image/webp"@
    } else if ends_with(lower, ".gif"@) {
        "image/gif"@
    } else {
        BINARY_MEDIA_TYPE@
    }
}

fn lowered_chars(s: &str) -> (lower: Vec<char>)
    ensures
        lower@ == ascii_lowered(s@),
{
    let cs = chars_of(s);
    let mut lower: Vec<char> = Vec::new();
    let mut i: usize = 0;
    while i < cs.len()
        invariant
            i <= cs.len(),
            cs@ == s@,
            lower@ == ascii_lowered(s@).take(i as int),
        decreases cs.len() - i,
    {
        lower.push(lower_ascii(cs[i]));
        assert(ascii_lowered(s@).take(i + 1) == ascii_lowered(s@).take(i as int).push(
            ascii_lowered(s@)[i as int],
        ));
        i += 1;
    }
    assert(ascii_lowered(s@).take(cs.len() as int) == ascii_lowered(s@));
    lower
}

fn has_suffix(s: &Vec<char>, suffix: &str) -> (b: bool)
    ensures
        b == ends_with(s@, suffix@),
{
    let t = chars_of(suffix);
    if s.len() < t.len() {
        return false;
    }
    let offset = s.len() - t.len();
    let ghost tail = s@.skip(offset as int);
    let mut i: usize = 0;
    while i < t.len()
        invariant
            i <= t.len(),
            offset + t.len() == s.len(),
            t@ == suffix@,
            tail == s@.skip(offset as int),
            tail.take(i as int) == t@.take(i as int),
        decreases t.len() - i,
    {
        if s[offset + i] != t[i] {
            assert(tail[i as int] != t@[i as int]);
            return false;
        }
        assert(tail.take(i + 1) == tail.take(i as int).push(tail[i as int]));
        assert(t@.take(i + 1) == t@.take(i as int).push(t@[i as int]));
        i += 1;
    }
    assert(tail.take(t.len() as int) == tail);
    assert(t@.take(t.len() as int) == t@);
    true
}

/// The media type under which the file at `path` is sent to the generation
/// service.
pub fn media_type_of(path: &str) -> (media: String)
    ensures
        media@ == media_type(path@),
{
    let lower = lowered_chars(path);
    if has_suffix(&lower, ".png") {
        "image/png".to_owned()
    } else if has_suffix(&lower, ".jpg") || has_suffix(&lower, ".jpeg") {
        "image/jpeg".to_owned()
    } else if has_suffix(&lower, ".webp") {
        "image/webp".to_owned()
    } else if has_suffix(&lower, ".gif") {
        "image/gif".to_owned()
    } else {
        BINARY_MEDIA_TYPE.to_owned()
    }
}

/// The path that a file chooser gave: what it printed, without the white
/// space around it, where it ended well and printed anything else.
pub open spec fn chosen_path(succeeded: bool, printed: Seq<char>) -> Option<Seq<char>> {
    if succeeded && trimmed(printed).len() > 0 {
        Some(trimmed(printed))
    } else {
        None
    }
}

/// Reads the outcome of a file chooser: whether it ended well, and what it
/// printed.
pub fn selected_path(succeeded: bool, printed: &str) -> (path: Option<String>)
    ensures
        match path {
            Some(p) => chosen_path(succeeded, printed@) == Some(p@),
            None => chosen_path(succeeded, printed@) is None,
        },
{
    if !succeeded {
        return None;
    }
    let path = trim(printed);
    if path.as_str().unicode_len() == 0 {
        None
    } else {
        Some(path)
    }
}

/// The file choosers that are tried where the system offers no chooser of
/// its own.
#[derive(Clone, Copy, PartialEq, Eq, Structural, Debug)]
pub enum Chooser {
    Zenity,
    Kdialog,
}

/// The chooser to try after `tried` gave no path: `zenity` first, then
/// `kdialog`, then none.
pub open spec fn chooser_after(tried: Option<Chooser>) -> Option<Chooser> {
    match tried {
        None => Some(Chooser::Zenity),
        Some(Chooser::Zenity) => Some(Chooser::Kdialog),
        Some(Chooser::Kdialog) => None,
    }
}

/// The chooser to try after `tried` gave no path.
pub fn next_chooser(tried: Option<Chooser>) -> (next: Option<Chooser>)
    ensures
        next == chooser_after(tried),
{
    match tried {
        None => Some(Chooser::Zenity),
        Some(Chooser::Zenity) => Some(Chooser::Kdialog),
        Some(Chooser::Kdialog) => None,
    }
}

/// What the generation service says of an image.
#[derive(Debug, PartialEq, Eq)]
pub enum ImageVerdict {
    /// It shows the creature of this name.
    Pokemon { name: String },
    /// It shows no creature, for this reason.
    NotPokemon { reason: String },
    /// The response has neither of the two shapes.
    Unrecognized,
}

/// A verdict as a mathematical value.
pub enum ImageVerdictView {
    Pokemon { name: Seq<char> },
    NotPokemon { reason: Seq<char> },
    Unrecognized,
}

impl View for ImageVerdict {
    type V = ImageVerdictView;

    open spec fn view(&self) -> ImageVerdictView {
        match self {
            ImageVerdict::Pokemon { name } => ImageVerdictView::Pokemon { name: name@ },
            ImageVerdict::NotPokemon { reason } => ImageVerdictView::NotPokemon { reason: reason@ },
            ImageVerdict::Unrecognized => ImageVerdictView::Unrecognized,
        }
    }
}

/// The verdict that the three members of a response spell out: a creature
/// with its name, or none with the reason; anything else is no verdict.
pub open spec fn verdict_from_fields(
    kind: Option<Seq<char>>,
    name: Option<Seq<char>>,
    reason: Option<Seq<char>>,
) -> ImageVerdictView {
    if kind == Some("pokemon"@) && name is Some {
        ImageVerdictView::Pokemon { name: name->0 }
    } else if kind == Some("not_pokemon"@) && reason is Some {
        ImageVerdictView::NotPokemon { reason: reason->0 }
    } else {
        ImageVerdictView::Unrecognized
    }
}

/// The verdict that the text of a response spells out: that of its members
/// `type`, `name` and `reason` where it is a JSON document.
pub open spec fn verdict_of(response: Seq<char>) -> ImageVerdictView {
    match json_document(response) {
        Some(members) => verdict_from_fields(
            member_text(members, "type"@),
            member_text(members, "name"@),
            member_text(members, "reason"@),
        ),
        None => ImageVerdictView::Unrecognized,
    }
}

impl ImageVerdict {
    /// The verdict that the three members of a response spell out.
    pub fn from_fields(kind: Option<&str>, name: Option<&str>, reason: Option<&str>) -> (verdict:
        ImageVerdict)
        ensures
            verdict@ == verdict_from_fields(text_view(kind), text_view(name), text_view(reason)),
    {
        match kind {
            Some(k) => {
                if same_text(k, "pokemon") {
                    match name {
                        Some(n) => ImageVerdict::Pokemon { name: n.to_owned() },
                        None => {
                            proof {
                                lemma_kinds_differ();
                            }
                            ImageVerdict::Unrecognized
                        },
                    }
                } else if same_text(k, "not_pokemon") {
                    match reason {
                        Some(r) => ImageVerdict::NotPokemon { reason: r.to_owned() },
                        None => ImageVerdict::Unrecognized,
                    }
                } else {
                    ImageVerdict::Unrecognized
                }
            },
            None => ImageVerdict::Unrecognized,
        }
    }

    /// Reads the verdict out of the text of a response.
    pub fn parse(response: &str) -> (verdict: ImageVerdict)
        ensures
            verdict@ == verdict_of(response@),
    {
        match parse_document(response) {
            Ok(document) => {
                let kind = string_member(&document, "type");
                let name = string_member(&document, "name");
                let reason = string_member(&document, "reason");
                ImageVerdict::from_fields(kind, name, reason)
            },
            Err(_) => ImageVerdict::Unrecognized,
        }
    }
}

proof fn lemma_kinds_differ()
    ensures
        "pokemon"@ != "not_pokemon"@,
{
    reveal_strlit("pokemon");
    reveal_strlit("not_pokemon");
    assert("pokemon"@.len() == 7);
    assert("not_pokemon"@.len() == 11);
}

} // verus!
