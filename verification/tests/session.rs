use pokidex::gemini::{build_context_prompt, ConfigError};
use pokidex::image::{ImageVerdict, IMAGE_PROMPT};
use pokidex::rag::decision::Decision;
use pokidex::pokeapi::model::{Ability, FlavorText, Pokemon, PokemonSpecies, Stat};
use pokidex::rag::prompt::{build_followup_prompt, build_initial_prompt, GENERIC_CONTEXT};
use pokidex::rag::session::{Action, Event, Phase, QueryError, Session};
use pokidex::rag::RAGEngine;

fn engine() -> RAGEngine {
    RAGEngine::new(Some("SECRET-REDACTED".to_string())).unwrap()
}

fn pikachu() -> Pokemon {
    Pokemon {
        id: 25,
        name: "pikachu".to_string(),
        base_experience: Some(112),
        height: 4,
        weight: 60,
        abilities: vec![Ability { name: "static".to_string(), is_hidden: false }],
        moves: (1..=40).map(|i| format!("move-{}", i)).collect(),
        stats: vec![Stat { name: "hp".to_string(), base_stat: 35 }],
        types: vec!["electric".to_string()],
    }
}

fn species() -> PokemonSpecies {
    PokemonSpecies {
        capture_rate: 190,
        base_happiness: Some(50),
        is_legendary: false,
        is_mythical: false,
        flavor_text_entries: vec![FlavorText {
            language: "en".to_string(),
            flavor_text: "It stores\nelectricity.".to_string(),
        }],
    }
}

const PIKACHU_TEXT: &str = "Name: pikachu\nID: 25\nTypes: electric\nStats:\n  - hp: 35\nAbilities: static\nHeight: 4 dm\nWeight: 60 hg\nBase Experience: 112\n";
const SPECIES_TEXT: &str = "Species Information:\n  Capture Rate: 190\n  Base Happiness: 50\n  Is Legendary: false\n  Is Mythical: false\n  Description: It stores electricity.\n";

fn generated(text: &str) -> Event {
    Event::Generated(text.to_string())
}

fn failed(message: &str) -> Event {
    Event::LookupFailed(message.to_string())
}

fn followup(output: &str, query: &str) -> Action {
    Action::Generate(build_followup_prompt(output, query))
}

fn from_context(context: &str, query: &str) -> Action {
    Action::Generate(build_context_prompt(context, query))
}

/// Runs a question through the events given and returns everything asked for.
fn run(query: &str, events: Vec<Event>) -> Vec<Action> {
    let engine = engine();
    let (mut session, first) = engine.process_query(query);
    let mut asked = vec![first];
    for event in events {
        if session.phase == Phase::Done {
            break;
        }
        let (next, action) = engine.advance(session, event);
        session = next;
        asked.push(action);
    }
    asked
}

fn is_lookup(action: &Action) -> bool {
    matches!(action, Action::CheckName(_) | Action::FetchPokemon(_) | Action::FetchSpecies(_))
}

#[test]
fn an_engine_needs_a_credential() {
    assert!(matches!(RAGEngine::new(None), Err(ConfigError::MissingApiKey)));
    assert!(RAGEngine::new(Some("k".to_string())).is_ok());
    assert_eq!(
        engine().gemini().generate_content("p").url,
        "https://generativelanguage.googleapis.com/v1beta/models/gemini-pro:generateContent?key=SECRET-REDACTED"
    );
}

#[test]
fn the_first_prompt_lists_the_tools_and_ends_with_the_question() {
    let expected = "You are a Pokemon assistant agent. Decide whether to call one of the available tools to fetch Pokemon data, or answer directly. \nAvailable tools you can call:\n1) get_pokemon(name) -> Returns detailed Pokemon data for a given name or id.\n2) get_pokemon_species(name) -> Returns species information (flavor text, capture rate, etc.).\n3) get_pokemon_stats(name) -> Returns only base stats for a given pokemon.\n4) get_pokemon_moves(name) -> Returns a compact move list for a given pokemon.\n\nIf you need to call a tool, respond with a JSON object exactly in this shape:\n  {\"type\":\"action\",\"tool\":\"get_pokemon\",\"name\":\"pikachu\"}\nor\n  {\"type\":\"action\",\"tool\":\"get_pokemon_species\",\"name\":\"pikachu\"}\nor\n  {\"type\":\"action\",\"tool\":\"get_pokemon_stats\",\"name\":\"pikachu\"}\nor\n  {\"type\":\"action\",\"tool\":\"get_pokemon_moves\",\"name\":\"pikachu\"}\n\nIf you can answer the user directly without calling a tool, respond with:\n  {\"type\":\"final\",\"answer\":\"<your answer>\"}\n\nUser Question: Who is Pikachu?";
    assert_eq!(build_initial_prompt("Who is Pikachu?"), expected);
    let (session, first) = engine().process_query("Who is Pikachu?");
    assert_eq!(first, Action::Generate(expected.to_string()));
    assert_eq!(session, Session { query: "Who is Pikachu?".to_string(), phase: Phase::Deciding });
}

#[test]
fn the_second_prompt_shows_the_tool_output_and_the_question() {
    assert_eq!(
        build_followup_prompt("OUT", "Q?"),
        "Tool output:\nOUT\n\nBased on the tool output above, provide a concise, user-facing answer to the original question: Q?"
    );
}

#[test]
fn a_final_decision_is_the_answer_without_any_lookup() {
    let asked = run(
        "Who is Pikachu?",
        vec![generated("{\"type\":\"final\",\"answer\":\"X\"}"), generated("later")],
    );
    assert_eq!(
        asked,
        vec![
            Action::Generate(build_initial_prompt("Who is Pikachu?")),
            Action::Answer("X".to_string())
        ]
    );
    assert!(!asked.iter().any(is_lookup));
}

#[test]
fn a_failing_generation_service_fails_the_question() {
    let asked = run("Q", vec![Event::GenerationFailed("Failed to send request to Gemini API".to_string())]);
    assert_eq!(
        asked[1],
        Action::Fail(QueryError::Generation {
            message: "Failed to send request to Gemini API".to_string()
        })
    );
    let late = run(
        "Q",
        vec![
            generated("{\"type\":\"action\",\"tool\":\"nothing\",\"name\":\"x\"}"),
            Event::GenerationFailed("down".to_string()),
        ],
    );
    assert_eq!(late[2], Action::Fail(QueryError::Generation { message: "down".to_string() }));
}

#[test]
fn the_pokemon_tool_fetches_the_creature_then_its_species() {
    let asked = run(
        "Q",
        vec![
            generated("{\"type\":\"action\",\"tool\":\"get_pokemon\",\"name\":\"Pikachu\"}"),
            Event::PokemonFound(pikachu()),
            Event::SpeciesFound(species()),
            generated("It is a mouse."),
        ],
    );
    assert_eq!(
        asked[1..],
        [
            Action::FetchPokemon("Pikachu".to_string()),
            Action::FetchSpecies("Pikachu".to_string()),
            followup(&format!("{}\n{}", PIKACHU_TEXT, SPECIES_TEXT), "Q"),
            Action::Answer("It is a mouse.".to_string()),
        ]
    );
}

#[test]
fn the_pokemon_tool_does_without_a_species_that_cannot_be_had() {
    let asked = run(
        "Q",
        vec![
            generated("{\"type\":\"action\",\"tool\":\"get_pokemon\",\"name\":\"pikachu\"}"),
            Event::PokemonFound(pikachu()),
            failed("Failed to find Pokemon species: pikachu"),
            generated("A"),
        ],
    );
    assert_eq!(asked[3], followup(PIKACHU_TEXT, "Q"));
    assert_eq!(asked[4], Action::Answer("A".to_string()));
}

#[test]
fn a_failed_tool_lookup_is_told_to_the_generation_service() {
    let cases = [
        ("get_pokemon", "Error fetching pokemon: Failed to find Pokemon: zzz"),
        ("get_pokemon_species", "Error fetching species: Failed to find Pokemon: zzz"),
        ("get_pokemon_stats", "Error fetching pokemon stats: Failed to find Pokemon: zzz"),
        ("get_pokemon_moves", "Error fetching pokemon moves: Failed to find Pokemon: zzz"),
    ];
    for (tool, output) in cases {
        let asked = run(
            "Q",
            vec![
                generated(&format!("{{\"type\":\"action\",\"tool\":\"{}\",\"name\":\"zzz\"}}", tool)),
                failed("Failed to find Pokemon: zzz"),
                generated("Sorry."),
            ],
        );
        assert_eq!(asked.len(), 4);
        assert_eq!(asked[2], followup(output, "Q"));
        assert_eq!(asked[3], Action::Answer("Sorry.".to_string()));
    }
}

#[test]
fn the_species_tool_fetches_the_species_then_the_creature() {
    let asked = run(
        "Q",
        vec![
            generated("{\"type\":\"action\",\"tool\":\"get_pokemon_species\",\"name\":\"pikachu\"}"),
            Event::SpeciesFound(species()),
            Event::PokemonFound(pikachu()),
            generated("A"),
        ],
    );
    assert_eq!(
        asked[1..],
        [
            Action::FetchSpecies("pikachu".to_string()),
            Action::FetchPokemon("pikachu".to_string()),
            followup(&format!("{}\n{}", PIKACHU_TEXT, SPECIES_TEXT), "Q"),
            Action::Answer("A".to_string()),
        ]
    );
}

#[test]
fn the_species_tool_shows_the_species_alone_without_the_creature() {
    let asked = run(
        "Q",
        vec![
            generated("{\"type\":\"action\",\"tool\":\"get_pokemon_species\",\"name\":\"pikachu\"}"),
            Event::SpeciesFound(species()),
            failed("gone"),
        ],
    );
    assert_eq!(asked[3], followup(SPECIES_TEXT, "Q"));
}

#[test]
fn the_stats_tool_shows_the_stats() {
    let asked = run(
        "Q",
        vec![
            generated("{\"type\":\"action\",\"tool\":\"get_pokemon_stats\",\"name\":\"pikachu\"}"),
            Event::PokemonFound(pikachu()),
        ],
    );
    assert_eq!(asked[1], Action::FetchPokemon("pikachu".to_string()));
    assert_eq!(asked[2], followup("Name: pikachu\nStats:\n  - hp: 35\n", "Q"));
}

#[test]
fn the_moves_tool_shows_thirty_moves() {
    let asked = run(
        "Q",
        vec![
            generated("{\"type\":\"action\",\"tool\":\"get_pokemon_moves\",\"name\":\"pikachu\"}"),
            Event::PokemonFound(pikachu()),
        ],
    );
    let moves: Vec<String> = (1..=30).map(|i| format!("move-{}", i)).collect();
    assert_eq!(asked[1], Action::FetchPokemon("pikachu".to_string()));
    assert_eq!(asked[2], followup(&format!("Name: pikachu\nMoves: {}\n", moves.join(", ")), "Q"));
}

#[test]
fn an_unknown_tool_is_reported_and_nothing_is_looked_up() {
    let asked = run(
        "Q",
        vec![
            generated("{\"type\":\"action\",\"tool\":\"get_pokemon_types\",\"name\":\"pikachu\"}"),
            generated("A"),
        ],
    );
    assert_eq!(
        asked[1..],
        [
            followup("Unknown tool requested: get_pokemon_types", "Q"),
            Action::Answer("A".to_string())
        ]
    );
    let nameless = run("Q", vec![generated("{\"type\":\"action\"}")]);
    assert_eq!(nameless[1], followup("Unknown tool requested: ", "Q"));
}

#[test]
fn an_unparseable_decision_starts_the_name_search() {
    let asked = run("Tell me about Pikachu", vec![generated("I think it is a mouse")]);
    assert_eq!(asked[1], Action::CheckName("tell".to_string()));
    let asked = run("is Pikachu strong", vec![generated("{\"type\":\"final\"}")]);
    assert_eq!(asked[1], Action::CheckName("pikachu".to_string()));
}

#[test]
fn the_fallback_fetches_the_creature_once_and_the_species_at_most_once() {
    let asked = run(
        "Tell me about Pikachu please",
        vec![
            generated("not json"),
            failed("Failed to find Pokemon: tell"),
            Event::PokemonFound(pikachu()),
            Event::PokemonFound(pikachu()),
            Event::SpeciesFound(species()),
            generated("A mouse."),
            generated("ignored"),
        ],
    );
    assert_eq!(
        asked[1..],
        [
            Action::CheckName("tell".to_string()),
            Action::CheckName("pikachu".to_string()),
            Action::FetchPokemon("pikachu".to_string()),
            Action::FetchSpecies("pikachu".to_string()),
            from_context(&format!("{}\n{}", PIKACHU_TEXT, SPECIES_TEXT), "Tell me about Pikachu please"),
            Action::Answer("A mouse.".to_string()),
        ]
    );
    assert_eq!(asked.iter().filter(|a| matches!(a, Action::FetchPokemon(_))).count(), 1);
    assert_eq!(asked.iter().filter(|a| matches!(a, Action::FetchSpecies(_))).count(), 1);
}

#[test]
fn the_fallback_answers_from_the_creature_alone_when_the_species_fails() {
    let asked = run(
        "is Pikachu strong",
        vec![
            generated("not json"),
            Event::PokemonFound(pikachu()),
            Event::PokemonFound(pikachu()),
            failed("Failed to find Pokemon species: pikachu"),
            generated("Quite."),
        ],
    );
    assert_eq!(asked[4], from_context(PIKACHU_TEXT, "is Pikachu strong"));
    assert_eq!(asked[5], Action::Answer("Quite.".to_string()));
}

#[test]
fn the_fallback_fails_when_the_creature_cannot_be_fetched() {
    let asked = run(
        "is Pikachu strong",
        vec![
            generated("not json"),
            Event::PokemonFound(pikachu()),
            failed("Failed to find Pokemon: pikachu"),
            Event::SpeciesFound(species()),
        ],
    );
    assert_eq!(
        asked[1..],
        [
            Action::CheckName("pikachu".to_string()),
            Action::FetchPokemon("pikachu".to_string()),
            Action::Fail(QueryError::NotFound {
                message: "Failed to find Pokemon: pikachu".to_string()
            }),
        ]
    );
    assert_eq!(asked.iter().filter(|a| matches!(a, Action::FetchSpecies(_))).count(), 0);
}

#[test]
fn without_a_name_the_answer_comes_from_general_knowledge() {
    let none = run("what is the strongest type?", vec![generated("not json"), generated("Dragon.")]);
    assert_eq!(
        none[1..],
        [
            from_context(GENERIC_CONTEXT, "what is the strongest type?"),
            Action::Answer("Dragon.".to_string())
        ]
    );
    assert_eq!(
        GENERIC_CONTEXT,
        "You are a Pokemon assistant. Answer questions about Pokemon using general knowledge. If asked about a specific Pokemon, you may need the Pokemon name to provide detailed information."
    );
    let unknown = run(
        "What about Agumon",
        vec![generated("not json"), failed("no"), failed("no"), generated("Not a Pokemon.")],
    );
    assert_eq!(
        unknown[1..],
        [
            Action::CheckName("what".to_string()),
            Action::CheckName("agumon".to_string()),
            from_context(GENERIC_CONTEXT, "What about Agumon"),
            Action::Answer("Not a Pokemon.".to_string()),
        ]
    );
}

#[test]
fn an_event_out_of_turn_ends_the_session() {
    let engine = engine();
    let (session, _) = engine.process_query("Q");
    let (session, action) = engine.advance(session, Event::PokemonFound(pikachu()));
    assert_eq!(action, Action::Fail(QueryError::Unexpected));
    assert_eq!(session.phase, Phase::Done);
    let (session, action) = engine.advance(session, generated("{\"type\":\"final\",\"answer\":\"X\"}"));
    assert_eq!(action, Action::Fail(QueryError::Unexpected));
    assert_eq!(session, Session { query: "Q".to_string(), phase: Phase::Done });
}

#[test]
fn query_errors_read_as_their_messages() {
    assert_eq!(QueryError::Generation { message: "down".to_string() }.message(), "down");
    assert_eq!(
        QueryError::NotFound { message: "Failed to find Pokemon: x".to_string() }.message(),
        "Failed to find Pokemon: x"
    );
    assert_eq!(
        QueryError::Unexpected.message(),
        "Unexpected event for this point of the session"
    );
}

/// Runs an image through the events given and returns everything asked for.
fn run_image(path: &str, events: Vec<Event>) -> Vec<Action> {
    let engine = engine();
    let (mut session, first) = engine.process_image_query(path);
    let mut asked = vec![first];
    for event in events {
        if session.phase == Phase::Done {
            break;
        }
        let (next, action) = engine.advance(session, event);
        session = next;
        asked.push(action);
    }
    asked
}

#[test]
fn an_image_is_sent_with_its_media_type_for_a_verdict() {
    let (session, first) = engine().process_image_query("/tmp/Shots/Pika.JPG");
    assert_eq!(
        first,
        Action::Identify { prompt: IMAGE_PROMPT.to_string(), media_type: "image/jpeg".to_string() }
    );
    assert_eq!(
        session,
        Session { query: "/tmp/Shots/Pika.JPG".to_string(), phase: Phase::Identifying }
    );
    let (_, other) = engine().process_image_query("notes.txt");
    assert_eq!(
        other,
        Action::Identify {
            prompt: IMAGE_PROMPT.to_string(),
            media_type: "application/octet-stream".to_string()
        }
    );
}

#[test]
fn an_image_of_a_creature_is_answered_with_its_record() {
    let asked = run_image(
        "mime.png",
        vec![
            generated("{\"type\":\"pokemon\",\"name\":\"Mr. Mime\"}"),
            Event::PokemonFound(pikachu()),
            Event::SpeciesFound(species()),
            generated("ignored"),
        ],
    );
    assert_eq!(
        asked[1..],
        [
            Action::FetchPokemon("mr-mime".to_string()),
            Action::FetchSpecies("mr-mime".to_string()),
            Action::Answer(format!("{}\n{}", PIKACHU_TEXT, SPECIES_TEXT)),
        ]
    );
}

#[test]
fn an_image_is_answered_from_the_creature_alone_when_the_species_fails() {
    let asked = run_image(
        "pika.png",
        vec![
            generated("{\"type\":\"pokemon\",\"name\":\"Pikachu\"}"),
            Event::PokemonFound(pikachu()),
            failed("Failed to find Pokemon species: pikachu"),
        ],
    );
    assert_eq!(asked[3], Action::Answer(PIKACHU_TEXT.to_string()));
}

#[test]
fn an_image_of_an_unknown_creature_fails() {
    let asked = run_image(
        "agu.png",
        vec![
            generated("{\"type\":\"pokemon\",\"name\":\"Agumon\"}"),
            failed("Failed to find Pokemon: agumon"),
            Event::SpeciesFound(species()),
        ],
    );
    assert_eq!(
        asked[1..],
        [
            Action::FetchPokemon("agumon".to_string()),
            Action::Fail(QueryError::NotFound {
                message: "Failed to find Pokemon: agumon".to_string()
            }),
        ]
    );
}

#[test]
fn an_image_without_a_creature_fails_without_any_lookup() {
    let cat = run_image(
        "cat.gif",
        vec![generated("{\"type\":\"not_pokemon\",\"reason\":\"a cat\"}"), generated("x")],
    );
    assert_eq!(
        cat[1..],
        [Action::Fail(QueryError::NotPokemon { reason: "a cat".to_string() })]
    );
    let none = run_image("cat.gif", vec![generated("It looks like a cat.")]);
    assert_eq!(none[1..], [Action::Fail(QueryError::NoVerdict)]);
    let down = run_image("cat.gif", vec![Event::GenerationFailed("down".to_string())]);
    assert_eq!(down[1..], [Action::Fail(QueryError::Generation { message: "down".to_string() })]);
}

#[test]
fn image_errors_read_as_their_messages() {
    assert_eq!(
        QueryError::NotPokemon { reason: "a cat".to_string() }.message(),
        "The image does not show a Pokemon: a cat"
    );
    assert_eq!(QueryError::NoVerdict.message(), "Could not read the validation of the image");
}

#[test]
fn a_verdict_alone_decides_what_follows_an_image() {
    let engine = engine();
    let (session, action) = engine.after_verdict(
        "p.png".to_string(),
        ImageVerdict::Pokemon { name: "Nidoran♀".to_string() },
    );
    assert_eq!(action, Action::FetchPokemon("nidoran-f".to_string()));
    assert_eq!(session.phase, Phase::ImagePokemon { name: "nidoran-f".to_string() });
    let (session, action) = engine.after_verdict("p.png".to_string(), ImageVerdict::Unrecognized);
    assert_eq!(action, Action::Fail(QueryError::NoVerdict));
    assert_eq!(session.phase, Phase::Done);
}

#[test]
fn a_decision_alone_decides_what_follows_a_question() {
    let engine = engine();
    let (session, action) = engine.after_decision(
        "Q".to_string(),
        Decision::Final { answer: "X".to_string() },
    );
    assert_eq!(action, Action::Answer("X".to_string()));
    assert_eq!(session.phase, Phase::Done);
    let (session, action) = engine.after_decision(
        "Q".to_string(),
        Decision::Action { tool: "get_pokemon_stats".to_string(), name: "mew".to_string() },
    );
    assert_eq!(action, Action::FetchPokemon("mew".to_string()));
    assert_eq!(session.phase, Phase::ToolStats);
    let (_, action) = engine.after_decision("is Mew rare".to_string(), Decision::Unparseable);
    assert_eq!(action, Action::CheckName("mew".to_string()));
}
