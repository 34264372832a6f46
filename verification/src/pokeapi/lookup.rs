use vstd::prelude::*;
use crate::decimal::{int_text, parse_i64, parsed_i64, push_int};
use crate::pokeapi::PokeApiClient;

verus! {

/// The two kinds of record that the lookup service holds.
#[derive(Clone, Copy, PartialEq, Eq, Structural, Debug)]
pub enum RecordKind {
    Pokemon,
    Species,
}

/// One question to the lookup service.
#[derive(Debug, PartialEq, Eq)]
pub enum LookupRequest {
    ByName(String),
    ById(i64),
}

/// A request as a mathematical value.
pub enum LookupRequestView {
    ByName(Seq<char>),
    ById(int),
}

impl View for LookupRequest {
    type V = LookupRequestView;

    open spec fn view(&self) -> LookupRequestView {
        match self {
            LookupRequest::ByName(name) => LookupRequestView::ByName(name@),
            LookupRequest::ById(id) => LookupRequestView::ById(*id as int),
        }
    }
}

/// The service knows no record under the identifier.
#[derive(Debug, PartialEq, Eq)]
pub struct NotFound {
    pub message: String,
}

/// How a record is called in messages.
pub open spec fn kind_label(kind: RecordKind) -> Seq<char> {
    match kind {
        RecordKind::Pokemon => "Pokemon"@,
        RecordKind::Species => "Pokemon species"@,
    }
}

/// The message for an identifier that is no number and that the service does
/// not know as a name.
pub open spec fn unknown_name_message(kind: RecordKind, identifier: Seq<char>) -> Seq<char> {
    "Failed to find "@ + kind_label(kind) + ": "@ + identifier
}

/// The message for a number under which the service knows no record.
pub open spec fn unknown_id_message(kind: RecordKind, id: int) -> Seq<char> {
    "Failed to find "@ + kind_label(kind) + " with ID: "@ + int_text(id)
}

/// A lookup under way: the record is asked for by name first and, where the
/// service does not know the name and the identifier reads as a number, by
/// that number.
#[derive(Debug, PartialEq, Eq)]
pub struct Lookup {
    kind: RecordKind,
    identifier: String,
    id: Option<i64>,
}

/// A lookup as a mathematical value.
pub struct LookupView {
    pub kind: RecordKind,
    pub identifier: Seq<char>,
    /// The number asked for, once the name has failed.
    pub id: Option<int>,
}

impl View for Lookup {
    type V = LookupView;

    closed spec fn view(&self) -> LookupView {
        LookupView {
            kind: self.kind,
            identifier: self.identifier@,
            id: match self.id {
                Some(id) => Some(id as int),
                None => None,
            },
        }
    }
}

/// What is asked at this point of a lookup.
pub open spec fn request_of(l: LookupView) -> LookupRequestView {
    match l.id {
        Some(id) => LookupRequestView::ById(id),
        None => LookupRequestView::ByName(l.identifier),
    }
}

/// What follows when the service did not know what was asked: the lookup by
/// number, or the failure with its message.
pub open spec fn after_miss(l: LookupView) -> Result<LookupView, Seq<char>> {
    match l.id {
        Some(id) => Err(unknown_id_message(l.kind, id)),
        None => match parsed_i64(l.identifier) {
            Some(id) => Ok(LookupView { kind: l.kind, identifier: l.identifier, id: Some(id as int) }),
            None => Err(unknown_name_message(l.kind, l.identifier)),
        },
    }
}

fn push_kind_label(out: &mut String, kind: RecordKind)
    ensures
        final(out)@ == old(out)@ + kind_label(kind),
{
    match kind {
        RecordKind::Pokemon => out.append("Pokemon"),
        RecordKind::Species => out.append("Pokemon species"),
    }
}

impl Lookup {
    fn start(kind: RecordKind, name_or_id: &str) -> (lookup: Lookup)
        ensures
            lookup@ == (LookupView { kind, identifier: name_or_id@, id: None }),
    {
        Lookup { kind, identifier: name_or_id.to_owned(), id: None }
    }

    /// What to ask the service now.
    pub fn request(&self) -> (request: LookupRequest)
        ensures
            request@ == request_of(self@),
    {
        match self.id {
            Some(id) => LookupRequest::ById(id),
            None => LookupRequest::ByName(self.identifier.clone()),
        }
    }

    /// The lookup after the service did not know what was asked: by number
    /// where the name failed and the identifier is a number, else not found.
    pub fn on_miss(self) -> (next: Result<Lookup, NotFound>)
        ensures
            match next {
                Ok(lookup) => after_miss(self@) == Ok::<LookupView, Seq<char>>(lookup@),
                Err(not_found) => after_miss(self@) == Err::<LookupView, Seq<char>>(
                    not_found.message@,
                ),
            },
    {
        let mut message = String::new();
        message.append("Failed to find ");
        push_kind_label(&mut message, self.kind);
        match self.id {
            Some(id) => {
                message.append(" with ID: ");
                push_int(&mut message, id);
                assert(message@ == unknown_id_message(self.kind, id as int));
                Err(NotFound { message })
            },
            None => match parse_i64(self.identifier.as_str()) {
                Some(id) => Ok(Lookup { kind: self.kind, identifier: self.identifier, id: Some(id) }),
                None => {
                    message.append(": ");
                    message.append(self.identifier.as_str());
                    assert(message@ == unknown_name_message(self.kind, self.identifier@));
                    Err(NotFound { message })
                },
            },
        }
    }
}

impl PokeApiClient {
    /// Starts the lookup of a creature by name or number.
    pub fn get_pokemon(&self, name_or_id: &str) -> (lookup: Lookup)
        ensures
            lookup@ == (LookupView { kind: RecordKind::Pokemon, identifier: name_or_id@, id: None }),
    {
        Lookup::start(RecordKind::Pokemon, name_or_id)
    }

    /// Starts the lookup of a species by name or number.
    pub fn get_pokemon_species(&self, name_or_id: &str) -> (lookup: Lookup)
        ensures
            lookup@ == (LookupView { kind: RecordKind::Species, identifier: name_or_id@, id: None }),
    {
        Lookup::start(RecordKind::Species, name_or_id)
    }
}

} // verus!
