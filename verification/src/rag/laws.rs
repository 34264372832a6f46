use vstd::prelude::*;
use crate::gemini::context_prompt;
use crate::image::{verdict_of, ImageVerdictView};
use crate::pokeapi::model::{PokemonSpeciesView, PokemonView};
use crate::pokeapi::render::{pokemon_text, pokemon_with_species_text};
use crate::pokeapi::search::{
    extracted_name, is_candidate, lemma_first_known_at, lemma_no_candidate_no_name,
    name_candidates,
};
use crate::pokeapi::slug::normalized;
use crate::rag::decision::{decision_of, tool_named, DecisionView};
use crate::rag::prompt::{initial_prompt, unknown_tool_text, GENERIC_CONTEXT};
use crate::rag::session::{
    after_tool, finished, from_context, identifying, searching, started, step, ActionView,
    EventView, PhaseView, QueryErrorView, SessionView,
};
use crate::text::words;

verus! {

/// What a session asks for, event by event, until it is done or the events
/// run out.
pub open spec fn requests(s: SessionView, events: Seq<EventView>) -> Seq<ActionView>
    decreases events.len(),
{
    if events.len() == 0 || s.phase is Done {
        Seq::empty()
    } else {
        seq![step(s, events[0]).1] + requests(step(s, events[0]).0, events.drop_first())
    }
}

/// Everything that is asked for on a question: the first prompt, then what
/// the session asks for on each event.
pub open spec fn actions_of(query: Seq<char>, events: Seq<EventView>) -> Seq<ActionView> {
    seq![ActionView::Generate(initial_prompt(query))] + requests(started(query), events)
}

/// How many of the actions fetch a creature.
pub open spec fn pokemon_fetches(actions: Seq<ActionView>) -> nat
    decreases actions.len(),
{
    if actions.len() == 0 {
        0
    } else {
        pokemon_fetches(actions.drop_first()) + if actions[0] is FetchPokemon {
            1nat
        } else {
            0nat
        }
    }
}

/// How many of the actions fetch a species.
pub open spec fn species_fetches(actions: Seq<ActionView>) -> nat
    decreases actions.len(),
{
    if actions.len() == 0 {
        0
    } else {
        species_fetches(actions.drop_first()) + if actions[0] is FetchSpecies {
            1nat
        } else {
            0nat
        }
    }
}

/// How many of the actions are checks of the name search.
pub open spec fn name_checks(actions: Seq<ActionView>) -> nat
    decreases actions.len(),
{
    if actions.len() == 0 {
        0
    } else {
        name_checks(actions.drop_first()) + if actions[0] is CheckName {
            1nat
        } else {
            0nat
        }
    }
}

/// The events of a question that falls back on the name search and finds a
/// name: the response that is no decision, one failed check for each message
/// in `misses`, the check that succeeds, and whatever comes later.
pub open spec fn fallback_events(
    response: Seq<char>,
    misses: Seq<Seq<char>>,
    found: PokemonView,
    later: Seq<EventView>,
) -> Seq<EventView> {
    seq![EventView::Generated(response)] + search_events(misses, found, later)
}

/// The events of a name search that finds a name: one failed check for each
/// message in `misses`, the check that succeeds, and whatever comes later.
pub open spec fn search_events(
    misses: Seq<Seq<char>>,
    found: PokemonView,
    later: Seq<EventView>,
) -> Seq<EventView> {
    misses.map_values(|m: Seq<char>| EventView::LookupFailed(m)) + seq![
        EventView::PokemonFound(found),
    ] + later
}

proof fn lemma_counts_of_first(a: ActionView, rest: Seq<ActionView>)
    ensures
        pokemon_fetches(seq![a] + rest) == pokemon_fetches(rest) + if a is FetchPokemon {
            1nat
        } else {
            0nat
        },
        species_fetches(seq![a] + rest) == species_fetches(rest) + if a is FetchSpecies {
            1nat
        } else {
            0nat
        },
        name_checks(seq![a] + rest) == name_checks(rest) + if a is CheckName {
            1nat
        } else {
            0nat
        },
{
    assert((seq![a] + rest).drop_first() == rest);
}

proof fn lemma_requests_unfold(s: SessionView, events: Seq<EventView>)
    requires
        events.len() > 0,
        !(s.phase is Done),
    ensures
        requests(s, events) == seq![step(s, events[0]).1] + requests(
            step(s, events[0]).0,
            events.drop_first(),
        ),
{
}

proof fn lemma_done_asks_nothing(s: SessionView, events: Seq<EventView>)
    requires
        s.phase is Done,
    ensures
        requests(s, events) == Seq::<ActionView>::empty(),
{
}

proof fn lemma_concluding_looks_nothing_up(s: SessionView, events: Seq<EventView>)
    requires
        s.phase is Concluding,
    ensures
        pokemon_fetches(requests(s, events)) == 0,
        species_fetches(requests(s, events)) == 0,
        name_checks(requests(s, events)) == 0,
{
    if events.len() > 0 {
        let next = step(s, events[0]);
        lemma_requests_unfold(s, events);
        lemma_done_asks_nothing(next.0, events.drop_first());
        lemma_counts_of_first(next.1, requests(next.0, events.drop_first()));
    }
}

proof fn lemma_species_wait_looks_nothing_up(s: SessionView, events: Seq<EventView>)
    requires
        s.phase is FallbackSpecies,
    ensures
        pokemon_fetches(requests(s, events)) == 0,
        species_fetches(requests(s, events)) == 0,
        name_checks(requests(s, events)) == 0,
{
    if events.len() > 0 {
        let next = step(s, events[0]);
        lemma_requests_unfold(s, events);
        if next.0.phase is Done {
            lemma_done_asks_nothing(next.0, events.drop_first());
        } else {
            lemma_concluding_looks_nothing_up(next.0, events.drop_first());
        }
        lemma_counts_of_first(next.1, requests(next.0, events.drop_first()));
    }
}

proof fn lemma_after_fetch(s: SessionView, events: Seq<EventView>)
    requires
        s.phase is FallbackPokemon,
    ensures
        pokemon_fetches(requests(s, events)) == 0,
        species_fetches(requests(s, events)) <= 1,
        name_checks(requests(s, events)) == 0,
{
    if events.len() > 0 {
        let next = step(s, events[0]);
        lemma_requests_unfold(s, events);
        if next.0.phase is Done {
            lemma_done_asks_nothing(next.0, events.drop_first());
        } else {
            lemma_species_wait_looks_nothing_up(next.0, events.drop_first());
        }
        lemma_counts_of_first(next.1, requests(next.0, events.drop_first()));
    }
}

proof fn lemma_search_fetches_once(
    query: Seq<char>,
    candidate: Seq<char>,
    rest: Seq<Seq<char>>,
    misses: Seq<Seq<char>>,
    found: PokemonView,
    later: Seq<EventView>,
)
    requires
        misses.len() <= rest.len(),
    ensures
        ({
            let s = SessionView { query, phase: PhaseView::Searching { candidate, rest } };
            let asked = requests(s, search_events(misses, found, later));
            &&& pokemon_fetches(asked) == 1
            &&& species_fetches(asked) <= 1
            &&& name_checks(asked) == misses.len()
            &&& asked.len() > misses.len()
            &&& forall|i: int|
                0 <= i < misses.len() ==> #[trigger] asked[i] == ActionView::CheckName(rest[i])
            &&& asked[misses.len() as int] == ActionView::FetchPokemon(
                (seq![candidate] + rest)[misses.len() as int],
            )
        }),
    decreases misses.len(),
{
    let s = SessionView { query, phase: PhaseView::Searching { candidate, rest } };
    let events = search_events(misses, found, later);
    let next = step(s, events[0]);
    let tail = requests(next.0, events.drop_first());
    lemma_requests_unfold(s, events);
    lemma_counts_of_first(next.1, tail);
    if misses.len() == 0 {
        assert(events[0] == EventView::PokemonFound(found));
        lemma_after_fetch(next.0, events.drop_first());
    } else {
        assert(events[0] == EventView::LookupFailed(misses[0]));
        assert(events.drop_first() == search_events(misses.drop_first(), found, later));
        assert(next == searching(query, rest));
        lemma_search_fetches_once(
            query,
            rest[0],
            rest.drop_first(),
            misses.drop_first(),
            found,
            later,
        );
        let asked = requests(s, events);
        assert forall|i: int| 0 <= i < misses.len() implies #[trigger] asked[i]
            == ActionView::CheckName(rest[i]) by {
            if i > 0 {
                assert(asked[i] == tail[i - 1]);
                assert(rest.drop_first()[i - 1] == rest[i]);
            }
        }
        assert(asked[misses.len() as int] == tail[misses.len() - 1]);
        assert((seq![rest[0]] + rest.drop_first())[misses.len() - 1] == (seq![candidate]
            + rest)[misses.len() as int]);
    }
}

/// A response that decides on a final answer ends the question with exactly
/// that answer: besides the first prompt nothing is asked for, whatever
/// events come later, and so nothing is looked up.
pub proof fn lemma_final_decision_answers(
    query: Seq<char>,
    response: Seq<char>,
    answer: Seq<char>,
    later: Seq<EventView>,
)
    requires
        decision_of(response) == (DecisionView::Final { answer }),
    ensures
        actions_of(query, seq![EventView::Generated(response)] + later) == seq![
            ActionView::Generate(initial_prompt(query)),
            ActionView::Answer(answer),
        ],
        pokemon_fetches(actions_of(query, seq![EventView::Generated(response)] + later)) == 0,
        species_fetches(actions_of(query, seq![EventView::Generated(response)] + later)) == 0,
        name_checks(actions_of(query, seq![EventView::Generated(response)] + later)) == 0,
{
    let events = seq![EventView::Generated(response)] + later;
    let first = ActionView::Generate(initial_prompt(query));
    let next = step(started(query), events[0]);
    lemma_requests_unfold(started(query), events);
    lemma_done_asks_nothing(next.0, events.drop_first());
    let asked = requests(started(query), events);
    assert(asked == seq![ActionView::Answer(answer)]);
    assert(actions_of(query, events) == seq![first, ActionView::Answer(answer)]);
    lemma_counts_of_first(ActionView::Answer(answer), Seq::empty());
    assert(seq![ActionView::Answer(answer)] + Seq::empty() == asked);
    lemma_counts_of_first(first, asked);
}

/// A response that is no decision turns the question over to the name
/// search: the first candidate of the question is checked, or, where the
/// question has no candidate, the answer is asked for from general knowledge.
pub proof fn lemma_unparseable_decision_falls_back(query: Seq<char>, response: Seq<char>)
    requires
        decision_of(response) is Unparseable,
    ensures
        step(started(query), EventView::Generated(response)) == searching(
            query,
            name_candidates(query),
        ),
        name_candidates(query).len() > 0 ==> step(
            started(query),
            EventView::Generated(response),
        ).1 == ActionView::CheckName(name_candidates(query)[0]),
        name_candidates(query).len() == 0 ==> step(started(query), EventView::Generated(response))
            == from_context(query, GENERIC_CONTEXT@),
{
}

/// A question without a word that starts in upper case and has the length
/// of a name is answered from general knowledge once the response is no
/// decision: no name is checked.
pub proof fn lemma_no_candidate_no_check(query: Seq<char>, response: Seq<char>)
    requires
        decision_of(response) is Unparseable,
        forall|k: int| 0 <= k < words(query).len() ==> !is_candidate(#[trigger] words(query)[k]),
    ensures
        step(started(query), EventView::Generated(response)) == from_context(
            query,
            GENERIC_CONTEXT@,
        ),
{
    lemma_no_candidate_no_name(query, Set::empty());
}

/// When the response is no decision and the name search finds a name, after a
/// failed check for each of the candidates before it, then the candidates up
/// to the name have been checked once each, in their order, the creature of
/// that name is fetched exactly once and its species at most once, whatever
/// events come later.
pub proof fn lemma_fallback_fetches_once(
    query: Seq<char>,
    response: Seq<char>,
    misses: Seq<Seq<char>>,
    found: PokemonView,
    later: Seq<EventView>,
)
    requires
        decision_of(response) is Unparseable,
        misses.len() < name_candidates(query).len(),
    ensures
        ({
            let asked = actions_of(query, fallback_events(response, misses, found, later));
            let candidates = name_candidates(query);
            &&& pokemon_fetches(asked) == 1
            &&& species_fetches(asked) <= 1
            &&& name_checks(asked) == misses.len() + 1
            &&& asked.len() > misses.len() + 2
            &&& forall|i: int|
                0 <= i <= misses.len() ==> #[trigger] asked[i + 1] == ActionView::CheckName(
                    candidates[i],
                )
            &&& asked[misses.len() as int + 2] == ActionView::FetchPokemon(candidates[misses.len() as int])
        }),
{
    let candidates = name_candidates(query);
    let events = fallback_events(response, misses, found, later);
    let first = ActionView::Generate(initial_prompt(query));
    let next = step(started(query), events[0]);
    let tail = requests(next.0, events.drop_first());
    lemma_requests_unfold(started(query), events);
    assert(events.drop_first() == search_events(misses, found, later));
    assert(next == searching(query, candidates));
    lemma_search_fetches_once(
        query,
        candidates[0],
        candidates.drop_first(),
        misses,
        found,
        later,
    );
    lemma_counts_of_first(next.1, tail);
    lemma_counts_of_first(first, requests(started(query), events));
    let asked = actions_of(query, events);
    assert(asked[1] == next.1);
    assert forall|i: int| 0 <= i <= misses.len() implies #[trigger] asked[i + 1]
        == ActionView::CheckName(candidates[i]) by {
        if i > 0 {
            assert(asked[i + 1] == tail[i - 1]);
            assert(candidates.drop_first()[i - 1] == candidates[i]);
        }
    }
    assert(asked[misses.len() as int + 2] == tail[misses.len() as int]);
    assert((seq![candidates[0]] + candidates.drop_first()) == candidates);
}

/// The creature that the fallback fetches is the name that the question
/// yields: where the lookup service knows none of the candidates whose check
/// failed and knows the next one, that one is the extracted name, and it is
/// the one fetched.
pub proof fn lemma_fallback_fetches_the_extracted_name(
    query: Seq<char>,
    response: Seq<char>,
    misses: Seq<Seq<char>>,
    found: PokemonView,
    later: Seq<EventView>,
    known: Set<Seq<char>>,
)
    requires
        decision_of(response) is Unparseable,
        misses.len() < name_candidates(query).len(),
        forall|i: int| 0 <= i < misses.len() ==> !known.contains(#[trigger] name_candidates(query)[i]),
        known.contains(name_candidates(query)[misses.len() as int]),
    ensures
        extracted_name(query, known) == Some(name_candidates(query)[misses.len() as int]),
        actions_of(query, fallback_events(response, misses, found, later))[misses.len() as int + 2]
            == ActionView::FetchPokemon(extracted_name(query, known)->0),
{
    lemma_first_known_at(name_candidates(query), known, misses.len() as int);
    lemma_fallback_fetches_once(query, response, misses, found, later);
}

/// In the fallback, a failed lookup of the species does not stop the answer:
/// the generation service is asked to answer from the creature's record
/// alone, and what it responds is the answer.
pub proof fn lemma_species_failure_still_answers(
    query: Seq<char>,
    pokemon: PokemonView,
    message: Seq<char>,
    answer: Seq<char>,
)
    ensures
        requests(
            SessionView { query, phase: PhaseView::FallbackSpecies { pokemon } },
            seq![EventView::LookupFailed(message), EventView::Generated(answer)],
        ) == seq![
            ActionView::Generate(context_prompt(pokemon_text(pokemon), query)),
            ActionView::Answer(answer),
        ],
{
    let s = SessionView { query, phase: PhaseView::FallbackSpecies { pokemon } };
    let events = seq![EventView::LookupFailed(message), EventView::Generated(answer)];
    let next = step(s, events[0]);
    lemma_requests_unfold(s, events);
    let rest = events.drop_first();
    assert(rest[0] == EventView::Generated(answer));
    lemma_requests_unfold(next.0, rest);
    lemma_done_asks_nothing(step(next.0, rest[0]).0, rest.drop_first());
}

/// Whether a session waits for a lookup whose failure it can do without: that
/// of a tool, of a check of the name search, or of the species in the fallback.
pub open spec fn waits_for_soft_lookup(phase: PhaseView) -> bool {
    phase is ToolPokemon || phase is ToolPokemonSpecies || phase is ToolSpecies
        || phase is ToolSpeciesPokemon || phase is ToolStats || phase is ToolMoves
        || phase is Searching || phase is FallbackSpecies
}

/// A lookup that fails where the session can do without it never fails the
/// question: the session goes on to the next check or to the generation
/// service.
pub proof fn lemma_soft_failures_go_on(s: SessionView, message: Seq<char>)
    requires
        waits_for_soft_lookup(s.phase),
    ensures
        step(s, EventView::LookupFailed(message)).1 is Generate || step(
            s,
            EventView::LookupFailed(message),
        ).1 is CheckName,
        !(step(s, EventView::LookupFailed(message)).0.phase is Done),
{
}

/// A tool that does not exist never fails the question: the generation
/// service is told so, and nothing is looked up.
pub proof fn lemma_unknown_tool_goes_on(
    query: Seq<char>,
    response: Seq<char>,
    tool: Seq<char>,
    name: Seq<char>,
)
    requires
        decision_of(response) == (DecisionView::Action { tool, name }),
        tool_named(tool) is None,
    ensures
        step(started(query), EventView::Generated(response)) == after_tool(
            query,
            unknown_tool_text(tool),
        ),
{
}

/// The two failures that end a session: that of the generation service,
/// whenever the session waits for it, and that of the creature of the
/// fallback or of an image. Each is reported with its message.
pub proof fn lemma_hard_failures_end(s: SessionView, message: Seq<char>)
    ensures
        s.phase is Deciding || s.phase is Concluding || s.phase is Identifying ==> step(
            s,
            EventView::GenerationFailed(message),
        ) == finished(s.query, ActionView::Fail(QueryErrorView::Generation { message })),
        s.phase is FallbackPokemon || s.phase is ImagePokemon ==> step(
            s,
            EventView::LookupFailed(message),
        ) == finished(s.query, ActionView::Fail(QueryErrorView::NotFound { message })),
{
}

/// An image that shows no creature, or on which there is no verdict, ends the
/// session at once with the error that says so: nothing is looked up.
pub proof fn lemma_image_without_pokemon_fails(
    path: Seq<char>,
    response: Seq<char>,
    later: Seq<EventView>,
)
    requires
        !(verdict_of(response) is Pokemon),
    ensures
        requests(identifying(path), seq![EventView::Generated(response)] + later) == seq![
            ActionView::Fail(
                match verdict_of(response) {
                    ImageVerdictView::NotPokemon { reason } => QueryErrorView::NotPokemon {
                        reason,
                    },
                    _ => QueryErrorView::NoVerdict,
                },
            ),
        ],
{
    let events = seq![EventView::Generated(response)] + later;
    let next = step(identifying(path), events[0]);
    lemma_requests_unfold(identifying(path), events);
    lemma_done_asks_nothing(next.0, events.drop_first());
}

/// What the lookup of a species reports: the species, or the failure with
/// its message where there is none.
pub open spec fn species_event(species: Option<PokemonSpeciesView>, message: Seq<char>) -> EventView {
    match species {
        Some(s) => EventView::SpeciesFound(s),
        None => EventView::LookupFailed(message),
    }
}

/// The rendering of a creature with its species, or alone where there is none.
pub open spec fn described(pokemon: PokemonView, species: Option<PokemonSpeciesView>) -> Seq<char> {
    match species {
        Some(s) => pokemon_with_species_text(pokemon, s),
        None => pokemon_text(pokemon),
    }
}

/// An image that shows a creature is answered with the record of that
/// creature: it is fetched under the normalized form of its name, then its
/// species, and the answer is the rendering of both, or of the creature alone
/// where the species cannot be had.
pub proof fn lemma_image_of_pokemon_is_described(
    path: Seq<char>,
    response: Seq<char>,
    name: Seq<char>,
    pokemon: PokemonView,
    species: Option<PokemonSpeciesView>,
    message: Seq<char>,
)
    requires
        verdict_of(response) == (ImageVerdictView::Pokemon { name }),
    ensures
        requests(
            identifying(path),
            seq![
                EventView::Generated(response),
                EventView::PokemonFound(pokemon),
                species_event(species, message),
            ],
        ) == seq![
            ActionView::FetchPokemon(normalized(name)),
            ActionView::FetchSpecies(normalized(name)),
            ActionView::Answer(described(pokemon, species)),
        ],
{
    let events = seq![
        EventView::Generated(response),
        EventView::PokemonFound(pokemon),
        species_event(species, message),
    ];
    let s0 = identifying(path);
    lemma_requests_unfold(s0, events);
    let s1 = step(s0, events[0]).0;
    let e1 = events.drop_first();
    assert(e1[0] == EventView::PokemonFound(pokemon));
    lemma_requests_unfold(s1, e1);
    let s2 = step(s1, e1[0]).0;
    let e2 = e1.drop_first();
    assert(e2[0] == species_event(species, message));
    lemma_requests_unfold(s2, e2);
    lemma_done_asks_nothing(step(s2, e2[0]).0, e2.drop_first());
}

} // verus!
