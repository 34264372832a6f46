use pokidex::pokeapi::model::{Ability, FlavorText, Pokemon, PokemonSpecies, Stat};
use pokidex::pokeapi::PokeApiClient;

fn pikachu() -> Pokemon {
    Pokemon {
        id: 25,
        name: "pikachu".to_string(),
        base_experience: Some(112),
        height: 4,
        weight: 60,
        abilities: vec![
            Ability { name: "static".to_string(), is_hidden: false },
            Ability { name: "lightning-rod".to_string(), is_hidden: true },
        ],
        moves: vec![
            "mega-punch".to_string(),
            "pay-day".to_string(),
            "thunder-punch".to_string(),
        ],
        stats: vec![
            Stat { name: "hp".to_string(), base_stat: 35 },
            Stat { name: "attack".to_string(), base_stat: 55 },
        ],
        types: vec!["electric".to_string()],
    }
}

fn pikachu_species() -> PokemonSpecies {
    PokemonSpecies {
        capture_rate: 190,
        base_happiness: Some(50),
        is_legendary: false,
        is_mythical: false,
        flavor_text_entries: vec![
            FlavorText { language: "ja".to_string(), flavor_text: "ほっぺたの".to_string() },
            FlavorText {
                language: "en".to_string(),
                flavor_text: "When several of\nthese POKéMON\ngather, their\u{c}electricity could\nbuild and cause\nlightning storms.".to_string(),
            },
            FlavorText { language: "en".to_string(), flavor_text: "second".to_string() },
        ],
    }
}

#[test]
fn a_record_is_rendered_line_by_line() {
    let client = PokeApiClient::new();
    assert_eq!(
        client.format_pokemon_data(&pikachu()),
        "Name: pikachu\nID: 25\nTypes: electric\nStats:\n  - hp: 35\n  - attack: 55\nAbilities: static, lightning-rod (hidden)\nHeight: 4 dm\nWeight: 60 hg\nBase Experience: 112\n"
    );
}

#[test]
fn empty_types_leave_an_empty_line_of_types() {
    let client = PokeApiClient::new();
    let mut p = pikachu();
    p.types = Vec::new();
    let text = client.format_pokemon_data(&p);
    assert!(text.contains("ID: 25\nTypes: \nStats:\n"));
    assert_eq!(
        text,
        "Name: pikachu\nID: 25\nTypes: \nStats:\n  - hp: 35\n  - attack: 55\nAbilities: static, lightning-rod (hidden)\nHeight: 4 dm\nWeight: 60 hg\nBase Experience: 112\n"
    );
}

#[test]
fn an_empty_record_keeps_every_heading() {
    let client = PokeApiClient::new();
    let p = Pokemon {
        id: 0,
        name: String::new(),
        base_experience: None,
        height: 0,
        weight: 0,
        abilities: Vec::new(),
        moves: Vec::new(),
        stats: Vec::new(),
        types: Vec::new(),
    };
    assert_eq!(
        client.format_pokemon_data(&p),
        "Name: \nID: 0\nTypes: \nStats:\nAbilities: \nHeight: 0 dm\nWeight: 0 hg\n"
    );
    assert_eq!(client.format_pokemon_stats(&p), "Name: \nStats:\n");
    assert_eq!(client.format_pokemon_moves(&p, 30), "Name: \nMoves: \n");
}

#[test]
fn several_types_are_joined_and_missing_experience_is_left_out() {
    let client = PokeApiClient::new();
    let p = Pokemon {
        id: 1,
        name: "bulbasaur".to_string(),
        base_experience: None,
        height: 7,
        weight: 69,
        abilities: vec![Ability { name: "chlorophyll".to_string(), is_hidden: true }],
        moves: Vec::new(),
        stats: vec![Stat { name: "speed".to_string(), base_stat: -45 }],
        types: vec!["grass".to_string(), "poison".to_string()],
    };
    assert_eq!(
        client.format_pokemon_data(&p),
        "Name: bulbasaur\nID: 1\nTypes: grass, poison\nStats:\n  - speed: -45\nAbilities: chlorophyll (hidden)\nHeight: 7 dm\nWeight: 69 hg\n"
    );
}

#[test]
fn the_species_follows_the_record_after_an_empty_line() {
    let client = PokeApiClient::new();
    let text = client.format_pokemon_with_species(&pikachu(), &pikachu_species());
    let expected = "Name: pikachu\nID: 25\nTypes: electric\nStats:\n  - hp: 35\n  - attack: 55\nAbilities: static, lightning-rod (hidden)\nHeight: 4 dm\nWeight: 60 hg\nBase Experience: 112\n\nSpecies Information:\n  Capture Rate: 190\n  Base Happiness: 50\n  Is Legendary: false\n  Is Mythical: false\n  Description: When several of these POKéMON gather, their\u{c}electricity could build and cause lightning storms.\n";
    assert_eq!(text, expected);
    assert_eq!(
        text,
        format!(
            "{}\n{}",
            client.format_pokemon_data(&pikachu()),
            client.format_species_data(&pikachu_species())
        )
    );
}

#[test]
fn a_species_without_happiness_or_english_text_has_neither_line() {
    let client = PokeApiClient::new();
    let species = PokemonSpecies {
        capture_rate: 3,
        base_happiness: None,
        is_legendary: true,
        is_mythical: true,
        flavor_text_entries: vec![FlavorText {
            language: "fr".to_string(),
            flavor_text: "texte".to_string(),
        }],
    };
    assert_eq!(
        client.format_species_data(&species),
        "Species Information:\n  Capture Rate: 3\n  Is Legendary: true\n  Is Mythical: true\n"
    );
}

#[test]
fn the_first_english_text_is_the_description() {
    let client = PokeApiClient::new();
    let species = PokemonSpecies {
        capture_rate: 45,
        base_happiness: Some(0),
        is_legendary: false,
        is_mythical: true,
        flavor_text_entries: vec![
            FlavorText { language: "EN".to_string(), flavor_text: "wrong case".to_string() },
            FlavorText { language: "en".to_string(), flavor_text: "first\none".to_string() },
            FlavorText { language: "en".to_string(), flavor_text: "second".to_string() },
        ],
    };
    assert_eq!(
        client.format_species_data(&species),
        "Species Information:\n  Capture Rate: 45\n  Base Happiness: 0\n  Is Legendary: false\n  Is Mythical: true\n  Description: first one\n"
    );
}

#[test]
fn the_stats_view_shows_name_and_stats() {
    let client = PokeApiClient::new();
    assert_eq!(
        client.format_pokemon_stats(&pikachu()),
        "Name: pikachu\nStats:\n  - hp: 35\n  - attack: 55\n"
    );
}

#[test]
fn the_moves_view_stops_at_the_limit() {
    let client = PokeApiClient::new();
    let p = pikachu();
    assert_eq!(
        client.format_pokemon_moves(&p, 30),
        "Name: pikachu\nMoves: mega-punch, pay-day, thunder-punch\n"
    );
    assert_eq!(
        client.format_pokemon_moves(&p, 3),
        "Name: pikachu\nMoves: mega-punch, pay-day, thunder-punch\n"
    );
    assert_eq!(client.format_pokemon_moves(&p, 2), "Name: pikachu\nMoves: mega-punch, pay-day\n");
    assert_eq!(client.format_pokemon_moves(&p, 1), "Name: pikachu\nMoves: mega-punch\n");
    assert_eq!(client.format_pokemon_moves(&p, 0), "Name: pikachu\nMoves: \n");
}
