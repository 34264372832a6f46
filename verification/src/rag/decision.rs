use vstd::prelude::*;
use crate::chars::same_text;
use crate::json::{json_document, member_text, parse_document, string_member};

verus! {

/// The lookups that the generation service may ask for.
#[derive(Clone, Copy, PartialEq, Eq, Structural, Debug)]
pub enum Tool {
    /// The full record of a creature, with its species where that is known.
    Pokemon,
    /// The species of a creature, with the creature where that is known.
    Species,
    /// The base stats of a creature.
    Stats,
    /// The first moves of a creature.
    Moves,
}

/// The tool that answers to `name`, if there is one.
pub open spec fn tool_named(name: Seq<char>) -> Option<Tool> {
    if name == "get_pokemon"@ {
        Some(Tool::Pokemon)
    } else if name == "get_pokemon_species"@ {
        Some(Tool::Species)
    } else if name == "get_pokemon_stats"@ {
        Some(Tool::Stats)
    } else if name == "get_pokemon_moves"@ {
        Some(Tool::Moves)
    } else {
        None
    }
}

impl Tool {
    /// The tool that answers to `name`, if there is one.
    pub fn from_name(name: &str) -> (tool: Option<Tool>)
        ensures
            tool == tool_named(name@),
    {
        if same_text(name, "get_pokemon") {
            Some(Tool::Pokemon)
        } else if same_text(name, "get_pokemon_species") {
            Some(Tool::Species)
        } else if same_text(name, "get_pokemon_stats") {
            Some(Tool::Stats)
        } else if same_text(name, "get_pokemon_moves") {
            Some(Tool::Moves)
        } else {
            None
        }
    }
}

/// What the generation service decided on a question.
#[derive(Debug, PartialEq, Eq)]
pub enum Decision {
    /// It asks for a lookup of `name` with the tool called `tool`.
    Action { tool: String, name: String },
    /// It answers at once.
    Final { answer: String },
    /// Its response is neither of the two.
    Unparseable,
}

/// A decision as a mathematical value.
pub enum DecisionView {
    Action { tool: Seq<char>, name: Seq<char> },
    Final { answer: Seq<char> },
    Unparseable,
}

impl View for Decision {
    type V = DecisionView;

    open spec fn view(&self) -> DecisionView {
        match self {
            Decision::Action { tool, name } => DecisionView::Action { tool: tool@, name: name@ },
            Decision::Final { answer } => DecisionView::Final { answer: answer@ },
            Decision::Unparseable => DecisionView::Unparseable,
        }
    }
}

/// The text, or the empty text where there is none.
pub open spec fn text_or_empty(text: Option<Seq<char>>) -> Seq<char> {
    match text {
        Some(t) => t,
        None => Seq::empty(),
    }
}

/// The decision that the four members of a response spell out.
///
/// With the type `action` it is a lookup; a tool or a name that is missing
/// counts as empty. With the type `final` and an answer it is that answer.
/// Anything else is no decision.
pub open spec fn decision_from_fields(
    kind: Option<Seq<char>>,
    tool: Option<Seq<char>>,
    name: Option<Seq<char>>,
    answer: Option<Seq<char>>,
) -> DecisionView {
    if kind == Some("action"@) {
        DecisionView::Action { tool: text_or_empty(tool), name: text_or_empty(name) }
    } else if kind == Some("final"@) && answer is Some {
        DecisionView::Final { answer: answer->0 }
    } else {
        DecisionView::Unparseable
    }
}

/// The decision that a parsed response spells out: that of its members
/// `type`, `tool`, `name` and `answer` where it is a JSON document.
pub open spec fn decision_from_document(
    document: Option<Map<Seq<char>, Option<Seq<char>>>>,
) -> DecisionView {
    match document {
        Some(members) => decision_from_fields(
            member_text(members, "type"@),
            member_text(members, "tool"@),
            member_text(members, "name"@),
            member_text(members, "answer"@),
        ),
        None => DecisionView::Unparseable,
    }
}

/// The decision that the text of a response spells out.
pub open spec fn decision_of(response: Seq<char>) -> DecisionView {
    decision_from_document(json_document(response))
}

/// The characters of a text that may be missing.
pub open spec fn text_view(text: Option<&str>) -> Option<Seq<char>> {
    match text {
        Some(t) => Some(t@),
        None => None,
    }
}

fn owned_or_empty(text: Option<&str>) -> (owned: String)
    ensures
        owned@ == text_or_empty(text_view(text)),
{
    match text {
        Some(t) => t.to_owned(),
        None => String::new(),
    }
}

impl Decision {
    /// The decision that the four members of a response spell out.
    pub fn from_fields(
        kind: Option<&str>,
        tool: Option<&str>,
        name: Option<&str>,
        answer: Option<&str>,
    ) -> (decision: Decision)
        ensures
            decision@ == decision_from_fields(
                text_view(kind),
                text_view(tool),
                text_view(name),
                text_view(answer),
            ),
    {
        match kind {
            Some(k) => {
                if same_text(k, "action") {
                    Decision::Action { tool: owned_or_empty(tool), name: owned_or_empty(name) }
                } else if same_text(k, "final") {
                    match answer {
                        Some(a) => Decision::Final { answer: a.to_owned() },
                        None => Decision::Unparseable,
                    }
                } else {
                    Decision::Unparseable
                }
            },
            None => Decision::Unparseable,
        }
    }

    /// Reads the decision out of the text of a response. A text that is no
    /// JSON document, or none of the expected shape, is `Unparseable`.
    pub fn parse(response: &str) -> (decision: Decision)
        ensures
            decision@ == decision_of(response@),
    {
        match parse_document(response) {
            Ok(document) => {
                let kind = string_member(&document, "type");
                let tool = string_member(&document, "tool");
                let name = string_member(&document, "name");
                let answer = string_member(&document, "answer");
                Decision::from_fields(kind, tool, name, answer)
            },
            Err(_) => Decision::Unparseable,
        }
    }
}

} // verus!
