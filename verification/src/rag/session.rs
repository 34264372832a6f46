use vstd::prelude::*;
use crate::gemini::{build_context_prompt, context_prompt};
use crate::image::{
    media_type, media_type_of, verdict_of, ImageVerdict, ImageVerdictView, IMAGE_PROMPT,
};
use crate::pokeapi::model::{Pokemon, PokemonSpecies, PokemonSpeciesView, PokemonView};
use crate::pokeapi::render::{
    pokemon_moves_text, pokemon_stats_text, pokemon_text, pokemon_with_species_text, species_text,
};
use crate::pokeapi::search::{name_candidates, NameSearch};
use crate::pokeapi::slug::normalized;
use crate::pokeapi::PokeApiClient;
use crate::rag::RAGEngine;
use crate::rag::decision::{decision_of, tool_named, Decision, DecisionView, Tool};
use crate::rag::prompt::{
    build_followup_prompt, build_initial_prompt, followup_prompt, initial_prompt, labelled,
    moves_error_text, pokemon_error_text, species_error_text, stats_error_text, unknown_tool_text,
    GENERIC_CONTEXT, MOVES_SHOWN,
};

verus! {

/// Why a question got no answer.
#[derive(Debug, PartialEq, Eq)]
pub enum QueryError {
    /// The generation service failed.
    Generation { message: String },
    /// The creature named in the question could not be fetched.
    NotFound { message: String },
    /// The image shows no creature, for this reason.
    NotPokemon { reason: String },
    /// The generation service gave no verdict on the image.
    NoVerdict,
    /// An event came that answers nothing the session had asked for.
    Unexpected,
}

/// A query error as a mathematical value.
pub enum QueryErrorView {
    Generation { message: Seq<char> },
    NotFound { message: Seq<char> },
    NotPokemon { reason: Seq<char> },
    NoVerdict,
    Unexpected,
}

impl View for QueryError {
    type V = QueryErrorView;

    open spec fn view(&self) -> QueryErrorView {
        match self {
            QueryError::Generation { message } => QueryErrorView::Generation { message: message@ },
            QueryError::NotFound { message } => QueryErrorView::NotFound { message: message@ },
            QueryError::NotPokemon { reason } => QueryErrorView::NotPokemon { reason: reason@ },
            QueryError::NoVerdict => QueryErrorView::NoVerdict,
            QueryError::Unexpected => QueryErrorView::Unexpected,
        }
    }
}

/// How a query error reads.
pub open spec fn query_error_text(e: QueryErrorView) -> Seq<char> {
    match e {
        QueryErrorView::Generation { message } => message,
        QueryErrorView::NotFound { message } => message,
        QueryErrorView::NotPokemon { reason } => "The image does not show a Pokemon: "@ + reason,
        QueryErrorView::NoVerdict => "Could not read the validation of the image"@,
        QueryErrorView::Unexpected => "Unexpected event for this point of the session"@,
    }
}

impl QueryError {
    /// How the error reads.
    pub fn message(&self) -> (text: String)
        ensures
            text@ == query_error_text(self@),
    {
        match self {
            QueryError::Generation { message } => message.clone(),
            QueryError::NotFound { message } => message.clone(),
            QueryError::NotPokemon { reason } => labelled(
                "The image does not show a Pokemon: ",
                reason.as_str(),
            ),
            QueryError::NoVerdict => "Could not read the validation of the image".to_owned(),
            QueryError::Unexpected => "Unexpected event for this point of the session".to_owned(),
        }
    }
}

/// What the outside world reports back to a session.
#[derive(Debug, PartialEq, Eq)]
pub enum Event {
    /// The generation service responded with this text.
    Generated(String),
    /// The generation service failed, with this message.
    GenerationFailed(String),
    /// The lookup service found the creature.
    PokemonFound(Pokemon),
    /// The lookup service found the species.
    SpeciesFound(PokemonSpecies),
    /// The lookup service found nothing, or failed, with this message.
    LookupFailed(String),
}

/// An event as a mathematical value.
pub enum EventView {
    Generated(Seq<char>),
    GenerationFailed(Seq<char>),
    PokemonFound(PokemonView),
    SpeciesFound(PokemonSpeciesView),
    LookupFailed(Seq<char>),
}

impl View for Event {
    type V = EventView;

    open spec fn view(&self) -> EventView {
        match self {
            Event::Generated(text) => EventView::Generated(text@),
            Event::GenerationFailed(message) => EventView::GenerationFailed(message@),
            Event::PokemonFound(pokemon) => EventView::PokemonFound(pokemon@),
            Event::SpeciesFound(species) => EventView::SpeciesFound(species@),
            Event::LookupFailed(message) => EventView::LookupFailed(message@),
        }
    }
}

/// What a session asks the outside world to do next.
#[derive(Debug, PartialEq, Eq)]
pub enum Action {
    /// Send this prompt to the generation service.
    Generate(String),
    /// Send this prompt to the generation service together with the bytes of
    /// the image, under this media type.
    Identify { prompt: String, media_type: String },
    /// Ask the lookup service whether it knows a creature under this
    /// identifier: the check of the name search.
    CheckName(String),
    /// Fetch the creature with this identifier.
    FetchPokemon(String),
    /// Fetch the species with this identifier.
    FetchSpecies(String),
    /// The question is answered.
    Answer(String),
    /// The question cannot be answered.
    Fail(QueryError),
}

/// An action as a mathematical value.
pub enum ActionView {
    Generate(Seq<char>),
    Identify { prompt: Seq<char>, media_type: Seq<char> },
    CheckName(Seq<char>),
    FetchPokemon(Seq<char>),
    FetchSpecies(Seq<char>),
    Answer(Seq<char>),
    Fail(QueryErrorView),
}

impl View for Action {
    type V = ActionView;

    open spec fn view(&self) -> ActionView {
        match self {
            Action::Generate(prompt) => ActionView::Generate(prompt@),
            Action::Identify { prompt, media_type } => ActionView::Identify {
                prompt: prompt@,
                media_type: media_type@,
            },
            Action::CheckName(name) => ActionView::CheckName(name@),
            Action::FetchPokemon(name) => ActionView::FetchPokemon(name@),
            Action::FetchSpecies(name) => ActionView::FetchSpecies(name@),
            Action::Answer(text) => ActionView::Answer(text@),
            Action::Fail(error) => ActionView::Fail(error@),
        }
    }
}

/// What a session waits for.
#[derive(Debug, PartialEq, Eq)]
pub enum Phase {
    /// The decision of the generation service on the question.
    Deciding,
    /// The creature that the tool for creatures was called for.
    ToolPokemon { name: String },
    /// The species of that creature, which may be missing.
    ToolPokemonSpecies { pokemon: Pokemon },
    /// The species that the tool for species was called for.
    ToolSpecies { name: String },
    /// The creature of that species, which may be missing.
    ToolSpeciesPokemon { species: PokemonSpecies },
    /// The creature that the tool for stats was called for.
    ToolStats,
    /// The creature that the tool for moves was called for.
    ToolMoves,
    /// Whether the lookup service knows `candidate`; the candidates in
    /// `rest` come after it.
    Searching { candidate: String, rest: NameSearch },
    /// The creature whose name was found in the question.
    FallbackPokemon { name: String },
    /// The species of that creature, which may be missing.
    FallbackSpecies { pokemon: Pokemon },
    /// The text that the generation service makes of the last prompt.
    Concluding,
    /// The verdict of the generation service on an image.
    Identifying,
    /// The creature that the image shows.
    ImagePokemon { name: String },
    /// The species of that creature, which may be missing.
    ImageSpecies { pokemon: Pokemon },
    /// Nothing: the question is answered or has failed.
    Done,
}

/// A phase as a mathematical value.
pub enum PhaseView {
    Deciding,
    ToolPokemon { name: Seq<char> },
    ToolPokemonSpecies { pokemon: PokemonView },
    ToolSpecies { name: Seq<char> },
    ToolSpeciesPokemon { species: PokemonSpeciesView },
    ToolStats,
    ToolMoves,
    Searching { candidate: Seq<char>, rest: Seq<Seq<char>> },
    FallbackPokemon { name: Seq<char> },
    FallbackSpecies { pokemon: PokemonView },
    Concluding,
    Identifying,
    ImagePokemon { name: Seq<char> },
    ImageSpecies { pokemon: PokemonView },
    Done,
}

impl View for Phase {
    type V = PhaseView;

    open spec fn view(&self) -> PhaseView {
        match self {
            Phase::Deciding => PhaseView::Deciding,
            Phase::ToolPokemon { name } => PhaseView::ToolPokemon { name: name@ },
            Phase::ToolPokemonSpecies { pokemon } => PhaseView::ToolPokemonSpecies {
                pokemon: pokemon@,
            },
            Phase::ToolSpecies { name } => PhaseView::ToolSpecies { name: name@ },
            Phase::ToolSpeciesPokemon { species } => PhaseView::ToolSpeciesPokemon {
                species: species@,
            },
            Phase::ToolStats => PhaseView::ToolStats,
            Phase::ToolMoves => PhaseView::ToolMoves,
            Phase::Searching { candidate, rest } => PhaseView::Searching {
                candidate: candidate@,
                rest: rest@,
            },
            Phase::FallbackPokemon { name } => PhaseView::FallbackPokemon { name: name@ },
            Phase::FallbackSpecies { pokemon } => PhaseView::FallbackSpecies { pokemon: pokemon@ },
            Phase::Concluding => PhaseView::Concluding,
            Phase::Identifying => PhaseView::Identifying,
            Phase::ImagePokemon { name } => PhaseView::ImagePokemon { name: name@ },
            Phase::ImageSpecies { pokemon } => PhaseView::ImageSpecies { pokemon: pokemon@ },
            Phase::Done => PhaseView::Done,
        }
    }
}

/// One question on its way to an answer.
#[derive(Debug, PartialEq, Eq)]
pub struct Session {
    pub query: String,
    pub phase: Phase,
}

/// A session as a mathematical value.
pub struct SessionView {
    pub query: Seq<char>,
    pub phase: PhaseView,
}

impl View for Session {
    type V = SessionView;

    open spec fn view(&self) -> SessionView {
        SessionView { query: self.query@, phase: self.phase@ }
    }
}

/// The session of `query` at its start: the first prompt has been sent.
pub open spec fn started(query: Seq<char>) -> SessionView {
    SessionView { query, phase: PhaseView::Deciding }
}

/// The end of a session with `action`.
pub open spec fn finished(query: Seq<char>, action: ActionView) -> (SessionView, ActionView) {
    (SessionView { query, phase: PhaseView::Done }, action)
}

/// The end of a session on an event that it had not asked for.
pub open spec fn out_of_turn(query: Seq<char>) -> (SessionView, ActionView) {
    finished(query, ActionView::Fail(QueryErrorView::Unexpected))
}

/// The last request to the generation service, with `prompt`.
pub open spec fn concluding(query: Seq<char>, prompt: Seq<char>) -> (SessionView, ActionView) {
    (SessionView { query, phase: PhaseView::Concluding }, ActionView::Generate(prompt))
}

/// The request for the answer after a tool gave `output`.
pub open spec fn after_tool(query: Seq<char>, output: Seq<char>) -> (SessionView, ActionView) {
    concluding(query, followup_prompt(output, query))
}

/// The request for the answer from the data in `context`.
pub open spec fn from_context(query: Seq<char>, context: Seq<char>) -> (SessionView, ActionView) {
    concluding(query, context_prompt(context, query))
}

/// The name search at `candidates`: the check of the first of them, or,
/// where none is left, the request for an answer from general knowledge.
pub open spec fn searching(query: Seq<char>, candidates: Seq<Seq<char>>) -> (
    SessionView,
    ActionView,
) {
    if candidates.len() > 0 {
        (
            SessionView {
                query,
                phase: PhaseView::Searching {
                    candidate: candidates[0],
                    rest: candidates.drop_first(),
                },
            },
            ActionView::CheckName(candidates[0]),
        )
    } else {
        from_context(query, GENERIC_CONTEXT@)
    }
}

/// The call of the tool named `tool` for `name`. A tool that does not exist
/// is reported to the generation service in place of an output.
pub open spec fn dispatched(query: Seq<char>, tool: Seq<char>, name: Seq<char>) -> (
    SessionView,
    ActionView,
) {
    match tool_named(tool) {
        Some(Tool::Pokemon) => (
            SessionView { query, phase: PhaseView::ToolPokemon { name } },
            ActionView::FetchPokemon(name),
        ),
        Some(Tool::Species) => (
            SessionView { query, phase: PhaseView::ToolSpecies { name } },
            ActionView::FetchSpecies(name),
        ),
        Some(Tool::Stats) => (
            SessionView { query, phase: PhaseView::ToolStats },
            ActionView::FetchPokemon(name),
        ),
        Some(Tool::Moves) => (
            SessionView { query, phase: PhaseView::ToolMoves },
            ActionView::FetchPokemon(name),
        ),
        None => after_tool(query, unknown_tool_text(tool)),
    }
}

/// What follows the decision of the generation service: the call of a tool,
/// the answer itself, or, on anything else, the search for a name in the
/// question.
pub open spec fn decided(query: Seq<char>, decision: DecisionView) -> (SessionView, ActionView) {
    match decision {
        DecisionView::Action { tool, name } => dispatched(query, tool, name),
        DecisionView::Final { answer } => finished(query, ActionView::Answer(answer)),
        DecisionView::Unparseable => searching(query, name_candidates(query)),
    }
}

/// The session of the image at `path` at its start: the image has been sent
/// for a verdict.
pub open spec fn identifying(path: Seq<char>) -> SessionView {
    SessionView { query: path, phase: PhaseView::Identifying }
}

/// What follows the verdict on an image: the fetch of the creature that it
/// shows, under the normalized form of its name, or the end of the session
/// where it shows none or there is no verdict.
pub open spec fn identified(query: Seq<char>, verdict: ImageVerdictView) -> (
    SessionView,
    ActionView,
) {
    match verdict {
        ImageVerdictView::Pokemon { name } => (
            SessionView { query, phase: PhaseView::ImagePokemon { name: normalized(name) } },
            ActionView::FetchPokemon(normalized(name)),
        ),
        ImageVerdictView::NotPokemon { reason } => finished(
            query,
            ActionView::Fail(QueryErrorView::NotPokemon { reason }),
        ),
        ImageVerdictView::Unrecognized => finished(
            query,
            ActionView::Fail(QueryErrorView::NoVerdict),
        ),
    }
}

/// The session after `event`, and what it asks for next.
pub open spec fn step(s: SessionView, event: EventView) -> (SessionView, ActionView) {
    let query = s.query;
    match s.phase {
        PhaseView::Deciding => match event {
            EventView::Generated(text) => decided(query, decision_of(text)),
            EventView::GenerationFailed(message) => finished(
                query,
                ActionView::Fail(QueryErrorView::Generation { message }),
            ),
            _ => out_of_turn(query),
        },
        PhaseView::ToolPokemon { name } => match event {
            EventView::PokemonFound(pokemon) => (
                SessionView { query, phase: PhaseView::ToolPokemonSpecies { pokemon } },
                ActionView::FetchSpecies(name),
            ),
            EventView::LookupFailed(message) => after_tool(query, pokemon_error_text(message)),
            _ => out_of_turn(query),
        },
        PhaseView::ToolPokemonSpecies { pokemon } => match event {
            EventView::SpeciesFound(species) => after_tool(
                query,
                pokemon_with_species_text(pokemon, species),
            ),
            EventView::LookupFailed(_) => after_tool(query, pokemon_text(pokemon)),
            _ => out_of_turn(query),
        },
        PhaseView::ToolSpecies { name } => match event {
            EventView::SpeciesFound(species) => (
                SessionView { query, phase: PhaseView::ToolSpeciesPokemon { species } },
                ActionView::FetchPokemon(name),
            ),
            EventView::LookupFailed(message) => after_tool(query, species_error_text(message)),
            _ => out_of_turn(query),
        },
        PhaseView::ToolSpeciesPokemon { species } => match event {
            EventView::PokemonFound(pokemon) => after_tool(
                query,
                pokemon_with_species_text(pokemon, species),
            ),
            EventView::LookupFailed(_) => after_tool(query, species_text(species)),
            _ => out_of_turn(query),
        },
        PhaseView::ToolStats => match event {
            EventView::PokemonFound(pokemon) => after_tool(query, pokemon_stats_text(pokemon)),
            EventView::LookupFailed(message) => after_tool(query, stats_error_text(message)),
            _ => out_of_turn(query),
        },
        PhaseView::ToolMoves => match event {
            EventView::PokemonFound(pokemon) => after_tool(
                query,
                pokemon_moves_text(pokemon, MOVES_SHOWN as nat),
            ),
            EventView::LookupFailed(message) => after_tool(query, moves_error_text(message)),
            _ => out_of_turn(query),
        },
        PhaseView::Searching { candidate, rest } => match event {
            EventView::PokemonFound(_) => (
                SessionView { query, phase: PhaseView::FallbackPokemon { name: candidate } },
                ActionView::FetchPokemon(candidate),
            ),
            EventView::LookupFailed(_) => searching(query, rest),
            _ => out_of_turn(query),
        },
        PhaseView::FallbackPokemon { name } => match event {
            EventView::PokemonFound(pokemon) => (
                SessionView { query, phase: PhaseView::FallbackSpecies { pokemon } },
                ActionView::FetchSpecies(name),
            ),
            EventView::LookupFailed(message) => finished(
                query,
                ActionView::Fail(QueryErrorView::NotFound { message }),
            ),
            _ => out_of_turn(query),
        },
        PhaseView::FallbackSpecies { pokemon } => match event {
            EventView::SpeciesFound(species) => from_context(
                query,
                pokemon_with_species_text(pokemon, species),
            ),
            EventView::LookupFailed(_) => from_context(query, pokemon_text(pokemon)),
            _ => out_of_turn(query),
        },
        PhaseView::Concluding => match event {
            EventView::Generated(text) => finished(query, ActionView::Answer(text)),
            EventView::GenerationFailed(message) => finished(
                query,
                ActionView::Fail(QueryErrorView::Generation { message }),
            ),
            _ => out_of_turn(query),
        },
        PhaseView::Identifying => match event {
            EventView::Generated(text) => identified(query, verdict_of(text)),
            EventView::GenerationFailed(message) => finished(
                query,
                ActionView::Fail(QueryErrorView::Generation { message }),
            ),
            _ => out_of_turn(query),
        },
        PhaseView::ImagePokemon { name } => match event {
            EventView::PokemonFound(pokemon) => (
                SessionView { query, phase: PhaseView::ImageSpecies { pokemon } },
                ActionView::FetchSpecies(name),
            ),
            EventView::LookupFailed(message) => finished(
                query,
                ActionView::Fail(QueryErrorView::NotFound { message }),
            ),
            _ => out_of_turn(query),
        },
        PhaseView::ImageSpecies { pokemon } => match event {
            EventView::SpeciesFound(species) => finished(
                query,
                ActionView::Answer(pokemon_with_species_text(pokemon, species)),
            ),
            EventView::LookupFailed(_) => finished(
                query,
                ActionView::Answer(pokemon_text(pokemon)),
            ),
            _ => out_of_turn(query),
        },
        PhaseView::Done => out_of_turn(query),
    }
}

fn finish(query: String, action: Action) -> (next: (Session, Action))
    ensures
        (next.0@, next.1@) == finished(query@, action@),
{
    (Session { query, phase: Phase::Done }, action)
}

fn reject(query: String) -> (next: (Session, Action))
    ensures
        (next.0@, next.1@) == out_of_turn(query@),
{
    finish(query, Action::Fail(QueryError::Unexpected))
}

fn conclude_tool(query: String, output: &str) -> (next: (Session, Action))
    ensures
        (next.0@, next.1@) == after_tool(query@, output@),
{
    let prompt = build_followup_prompt(output, query.as_str());
    (Session { query, phase: Phase::Concluding }, Action::Generate(prompt))
}

fn conclude_context(query: String, context: &str) -> (next: (Session, Action))
    ensures
        (next.0@, next.1@) == from_context(query@, context@),
{
    let prompt = build_context_prompt(context, query.as_str());
    (Session { query, phase: Phase::Concluding }, Action::Generate(prompt))
}

fn search(query: String, candidates: NameSearch) -> (next: (Session, Action))
    ensures
        (next.0@, next.1@) == searching(query@, candidates@),
{
    match candidates.candidate() {
        Some(candidate) => {
            let rest = candidates.rejected();
            let check = Action::CheckName(candidate.clone());
            (Session { query, phase: Phase::Searching { candidate, rest } }, check)
        },
        None => conclude_context(query, GENERIC_CONTEXT),
    }
}

fn dispatch(query: String, tool: String, name: String) -> (next: (Session, Action))
    ensures
        (next.0@, next.1@) == dispatched(query@, tool@, name@),
{
    match Tool::from_name(tool.as_str()) {
        Some(Tool::Pokemon) => {
            let fetch = Action::FetchPokemon(name.clone());
            (Session { query, phase: Phase::ToolPokemon { name } }, fetch)
        },
        Some(Tool::Species) => {
            let fetch = Action::FetchSpecies(name.clone());
            (Session { query, phase: Phase::ToolSpecies { name } }, fetch)
        },
        Some(Tool::Stats) => (Session { query, phase: Phase::ToolStats }, Action::FetchPokemon(name)),
        Some(Tool::Moves) => (Session { query, phase: Phase::ToolMoves }, Action::FetchPokemon(name)),
        None => {
            let output = labelled("Unknown tool requested: ", tool.as_str());
            conclude_tool(query, output.as_str())
        },
    }
}

impl RAGEngine {
    /// Takes up a question: the session starts by asking the generation
    /// service to decide between a tool and a direct answer.
    pub fn process_query(&self, query: &str) -> (first: (Session, Action))
        ensures
            first.0@ == started(query@),
            first.1@ == ActionView::Generate(initial_prompt(query@)),
    {
        let prompt = build_initial_prompt(query);
        (Session { query: query.to_owned(), phase: Phase::Deciding }, Action::Generate(prompt))
    }

    /// Takes up an image: the session starts by asking the generation
    /// service whether the image at `image_path` shows a creature, and which.
    pub fn process_image_query(&self, image_path: &str) -> (first: (Session, Action))
        ensures
            first.0@ == identifying(image_path@),
            first.1@ == (ActionView::Identify {
                prompt: IMAGE_PROMPT@,
                media_type: media_type(image_path@),
            }),
    {
        let ask = Action::Identify {
            prompt: IMAGE_PROMPT.to_owned(),
            media_type: media_type_of(image_path),
        };
        (Session { query: image_path.to_owned(), phase: Phase::Identifying }, ask)
    }

    /// What follows the verdict of the generation service on an image.
    pub fn after_verdict(&self, query: String, verdict: ImageVerdict) -> (next: (Session, Action))
        ensures
            (next.0@, next.1@) == identified(query@, verdict@),
    {
        match verdict {
            ImageVerdict::Pokemon { name } => {
                let identifier = PokeApiClient::normalize_pokemon_name(name.as_str());
                let fetch = Action::FetchPokemon(identifier.clone());
                (Session { query, phase: Phase::ImagePokemon { name: identifier } }, fetch)
            },
            ImageVerdict::NotPokemon { reason } => finish(
                query,
                Action::Fail(QueryError::NotPokemon { reason }),
            ),
            ImageVerdict::Unrecognized => finish(query, Action::Fail(QueryError::NoVerdict)),
        }
    }

    /// What follows the decision of the generation service on a question.
    pub fn after_decision(&self, query: String, decision: Decision) -> (next: (Session, Action))
        ensures
            (next.0@, next.1@) == decided(query@, decision@),
    {
        match decision {
            Decision::Action { tool, name } => dispatch(query, tool, name),
            Decision::Final { answer } => finish(query, Action::Answer(answer)),
            Decision::Unparseable => {
                let candidates = self.pokeapi.extract_pokemon_name(query.as_str());
                search(query, candidates)
            },
        }
    }

    /// Moves a session on by one event: the result of what it asked for last.
    /// It returns the session as it stands then, and what it asks for next.
    pub fn advance(&self, session: Session, event: Event) -> (next: (Session, Action))
        ensures
            (next.0@, next.1@) == step(session@, event@),
    {
        let query = session.query;
        match session.phase {
            Phase::Deciding => match event {
                Event::Generated(text) => {
                    let decision = Decision::parse(text.as_str());
                    self.after_decision(query, decision)
                },
                Event::GenerationFailed(message) => finish(
                    query,
                    Action::Fail(QueryError::Generation { message }),
                ),
                _ => reject(query),
            },
            Phase::ToolPokemon { name } => match event {
                Event::PokemonFound(pokemon) => (
                    Session { query, phase: Phase::ToolPokemonSpecies { pokemon } },
                    Action::FetchSpecies(name),
                ),
                Event::LookupFailed(message) => {
                    let output = labelled("Error fetching pokemon: ", message.as_str());
                    conclude_tool(query, output.as_str())
                },
                _ => reject(query),
            },
            Phase::ToolPokemonSpecies { pokemon } => match event {
                Event::SpeciesFound(species) => {
                    let output = self.pokeapi.format_pokemon_with_species(&pokemon, &species);
                    conclude_tool(query, output.as_str())
                },
                Event::LookupFailed(_) => {
                    let output = self.pokeapi.format_pokemon_data(&pokemon);
                    conclude_tool(query, output.as_str())
                },
                _ => reject(query),
            },
            Phase::ToolSpecies { name } => match event {
                Event::SpeciesFound(species) => (
                    Session { query, phase: Phase::ToolSpeciesPokemon { species } },
                    Action::FetchPokemon(name),
                ),
                Event::LookupFailed(message) => {
                    let output = labelled("Error fetching species: ", message.as_str());
                    conclude_tool(query, output.as_str())
                },
                _ => reject(query),
            },
            Phase::ToolSpeciesPokemon { species } => match event {
                Event::PokemonFound(pokemon) => {
                    let output = self.pokeapi.format_pokemon_with_species(&pokemon, &species);
                    conclude_tool(query, output.as_str())
                },
                Event::LookupFailed(_) => {
                    let output = self.pokeapi.format_species_data(&species);
                    conclude_tool(query, output.as_str())
                },
                _ => reject(query),
            },
            Phase::ToolStats => match event {
                Event::PokemonFound(pokemon) => {
                    let output = self.pokeapi.format_pokemon_stats(&pokemon);
                    conclude_tool(query, output.as_str())
                },
                Event::LookupFailed(message) => {
                    let output = labelled("Error fetching pokemon stats: ", message.as_str());
                    conclude_tool(query, output.as_str())
                },
                _ => reject(query),
            },
            Phase::ToolMoves => match event {
                Event::PokemonFound(pokemon) => {
                    let output = self.pokeapi.format_pokemon_moves(&pokemon, MOVES_SHOWN);
                    conclude_tool(query, output.as_str())
                },
                Event::LookupFailed(message) => {
                    let output = labelled("Error fetching pokemon moves: ", message.as_str());
                    conclude_tool(query, output.as_str())
                },
                _ => reject(query),
            },
            Phase::Searching { candidate, rest } => match event {
                Event::PokemonFound(_) => {
                    let fetch = Action::FetchPokemon(candidate.clone());
                    (Session { query, phase: Phase::FallbackPokemon { name: candidate } }, fetch)
                },
                Event::LookupFailed(_) => search(query, rest),
                _ => reject(query),
            },
            Phase::FallbackPokemon { name } => match event {
                Event::PokemonFound(pokemon) => (
                    Session { query, phase: Phase::FallbackSpecies { pokemon } },
                    Action::FetchSpecies(name),
                ),
                Event::LookupFailed(message) => finish(
                    query,
                    Action::Fail(QueryError::NotFound { message }),
                ),
                _ => reject(query),
            },
            Phase::FallbackSpecies { pokemon } => match event {
                Event::SpeciesFound(species) => {
                    let context = self.pokeapi.format_pokemon_with_species(&pokemon, &species);
                    conclude_context(query, context.as_str())
                },
                Event::LookupFailed(_) => {
                    let context = self.pokeapi.format_pokemon_data(&pokemon);
                    conclude_context(query, context.as_str())
                },
                _ => reject(query),
            },
            Phase::Concluding => match event {
                Event::Generated(text) => finish(query, Action::Answer(text)),
                Event::GenerationFailed(message) => finish(
                    query,
                    Action::Fail(QueryError::Generation { message }),
                ),
                _ => reject(query),
            },
            Phase::Identifying => match event {
                Event::Generated(text) => {
                    let verdict = ImageVerdict::parse(text.as_str());
                    self.after_verdict(query, verdict)
                },
                Event::GenerationFailed(message) => finish(
                    query,
                    Action::Fail(QueryError::Generation { message }),
                ),
                _ => reject(query),
            },
            Phase::ImagePokemon { name } => match event {
                Event::PokemonFound(pokemon) => (
                    Session { query, phase: Phase::ImageSpecies { pokemon } },
                    Action::FetchSpecies(name),
                ),
                Event::LookupFailed(message) => finish(
                    query,
                    Action::Fail(QueryError::NotFound { message }),
                ),
                _ => reject(query),
            },
            Phase::ImageSpecies { pokemon } => match event {
                Event::SpeciesFound(species) => {
                    let text = self.pokeapi.format_pokemon_with_species(&pokemon, &species);
                    finish(query, Action::Answer(text))
                },
                Event::LookupFailed(_) => {
                    let text = self.pokeapi.format_pokemon_data(&pokemon);
                    finish(query, Action::Answer(text))
                },
                _ => reject(query),
            },
            Phase::Done => reject(query),
        }
    }
}

} // verus!
