use vstd::prelude::*;
use crate::chars::same_text;
use crate::decimal::{int_text, push_int};
use crate::pokeapi::PokeApiClient;
use crate::pokeapi::model::{
    Ability, AbilityView, FlavorText, FlavorTextView, Pokemon, PokemonSpecies, PokemonSpeciesView,
    PokemonView, StatView,
};
use crate::text::{joined, on_one_line, push_joined, push_on_one_line};

verus! {

/// The line that names the creature.
pub open spec fn name_line(p: PokemonView) -> Seq<char> {
    "Name: "@ + p.name + "\n"@
}

/// The line that gives the creature's number.
pub open spec fn id_line(p: PokemonView) -> Seq<char> {
    "ID: "@ + int_text(p.id) + "\n"@
}

/// The line that lists the creature's types, separated by a comma and a space.
pub open spec fn types_line(p: PokemonView) -> Seq<char> {
    "Types: "@ + joined(p.types, ", "@) + "\n"@
}

/// The line of one stat.
pub open spec fn stat_line(s: StatView) -> Seq<char> {
    "  - "@ + s.name + ": "@ + int_text(s.base_stat) + "\n"@
}

/// The lines of the stats, one each, in their order.
pub open spec fn stat_lines(stats: Seq<StatView>) -> Seq<char>
    decreases stats.len(),
{
    if stats.len() == 0 {
        Seq::empty()
    } else {
        stat_lines(stats.drop_last()) + stat_line(stats.last())
    }
}

/// The heading of the stats and their lines.
pub open spec fn stats_block(p: PokemonView) -> Seq<char> {
    "Stats:\n"@ + stat_lines(p.stats)
}

/// How an ability is shown: its name, marked where it is hidden.
pub open spec fn ability_label(a: AbilityView) -> Seq<char> {
    if a.is_hidden {
        a.name + " (hidden)"@
    } else {
        a.name
    }
}

/// The line that lists the abilities, separated by a comma and a space.
pub open spec fn abilities_line(p: PokemonView) -> Seq<char> {
    "Abilities: "@ + joined(p.abilities.map_values(|a: AbilityView| ability_label(a)), ", "@)
        + "\n"@
}

/// The lines of height and weight.
pub open spec fn size_lines(p: PokemonView) -> Seq<char> {
    "Height: "@ + int_text(p.height) + " dm\n"@ + "Weight: "@ + int_text(p.weight) + " hg\n"@
}

/// The line of the base experience, where the record has one.
pub open spec fn experience_line(p: PokemonView) -> Seq<char> {
    match p.base_experience {
        Some(x) => "Base Experience: "@ + int_text(x) + "\n"@,
        None => Seq::empty(),
    }
}

/// The full rendering of a creature record.
pub open spec fn pokemon_text(p: PokemonView) -> Seq<char> {
    name_line(p) + id_line(p) + types_line(p) + stats_block(p) + abilities_line(p) + size_lines(p)
        + experience_line(p)
}

/// The rendering of a creature's name and stats alone.
pub open spec fn pokemon_stats_text(p: PokemonView) -> Seq<char> {
    name_line(p) + stats_block(p)
}

/// The first `limit` moves, or all of them where there are fewer.
pub open spec fn leading_moves(p: PokemonView, limit: nat) -> Seq<Seq<char>> {
    if limit < p.moves.len() {
        p.moves.take(limit as int)
    } else {
        p.moves
    }
}

/// The rendering of a creature's name and at most `limit` of its moves.
pub open spec fn pokemon_moves_text(p: PokemonView, limit: nat) -> Seq<char> {
    name_line(p) + "Moves: "@ + joined(leading_moves(p, limit), ", "@) + "\n"@
}

/// `true` or `false`, as Rust prints it.
pub open spec fn bool_text(b: bool) -> Seq<char> {
    if b {
        "true"@
    } else {
        "false"@
    }
}

/// The text of the first entry whose language is `en`.
pub open spec fn first_english(entries: Seq<FlavorTextView>) -> Option<Seq<char>>
    decreases entries.len(),
{
    if entries.len() == 0 {
        None
    } else if entries[0].language == "en"@ {
        Some(entries[0].flavor_text)
    } else {
        first_english(entries.drop_first())
    }
}

/// The line of the base happiness, where the record has one.
pub open spec fn happiness_line(s: PokemonSpeciesView) -> Seq<char> {
    match s.base_happiness {
        Some(h) => "  Base Happiness: "@ + int_text(h) + "\n"@,
        None => Seq::empty(),
    }
}

/// The line of the description: the first English flavor text on one line,
/// where there is one.
pub open spec fn description_line(s: PokemonSpeciesView) -> Seq<char> {
    match first_english(s.flavor_text_entries) {
        Some(t) => "  Description: "@ + on_one_line(t) + "\n"@,
        None => Seq::empty(),
    }
}

/// The line of the capture rate.
pub open spec fn capture_line(s: PokemonSpeciesView) -> Seq<char> {
    "  Capture Rate: "@ + int_text(s.capture_rate) + "\n"@
}

/// The lines that tell whether the species is legendary and whether it is mythical.
pub open spec fn rarity_lines(s: PokemonSpeciesView) -> Seq<char> {
    "  Is Legendary: "@ + bool_text(s.is_legendary) + "\n"@ + "  Is Mythical: "@ + bool_text(
        s.is_mythical,
    ) + "\n"@
}

/// The rendering of a species record.
pub open spec fn species_text(s: PokemonSpeciesView) -> Seq<char> {
    "Species Information:\n"@ + capture_line(s) + happiness_line(s) + rarity_lines(s)
        + description_line(s)
}

/// The rendering of a creature record followed, after an empty line, by that
/// of its species.
pub open spec fn pokemon_with_species_text(p: PokemonView, s: PokemonSpeciesView) -> Seq<char> {
    pokemon_text(p) + "\n"@ + species_text(s)
}

/// A record without types still has its line of types, with nothing after the label.
pub proof fn lemma_empty_types_line(p: PokemonView)
    requires
        p.types.len() == 0,
    ensures
        types_line(p) == "Types: "@ + "\n"@,
        pokemon_text(p) == name_line(p) + id_line(p) + ("Types: "@ + "\n"@) + stats_block(p)
            + abilities_line(p) + size_lines(p) + experience_line(p),
{
    assert("Types: "@ + Seq::<char>::empty() == "Types: "@);
}

fn push_name_line(out: &mut String, p: &Pokemon)
    ensures
        final(out)@ == old(out)@ + name_line(p@),
{
    out.append("Name: ");
    out.append(p.name.as_str());
    out.append("\n");
    assert(out@ == old(out)@ + name_line(p@));
}

fn push_id_line(out: &mut String, p: &Pokemon)
    ensures
        final(out)@ == old(out)@ + id_line(p@),
{
    out.append("ID: ");
    push_int(out, p.id);
    out.append("\n");
    assert(out@ == old(out)@ + id_line(p@));
}

fn push_types_line(out: &mut String, p: &Pokemon)
    ensures
        final(out)@ == old(out)@ + types_line(p@),
{
    out.append("Types: ");
    push_joined(out, &p.types, ", ");
    out.append("\n");
    assert(out@ == old(out)@ + types_line(p@));
}

fn push_stats_block(out: &mut String, p: &Pokemon)
    ensures
        final(out)@ == old(out)@ + stats_block(p@),
{
    out.append("Stats:\n");
    let ghost start = out@;
    let ghost all = p.stats.deep_view();
    let mut i: usize = 0;
    assert(all.take(0) == Seq::<StatView>::empty());
    assert(start + Seq::<char>::empty() == start);
    while i < p.stats.len()
        invariant
            i <= p.stats.len(),
            all == p.stats.deep_view(),
            out@ == start + stat_lines(all.take(i as int)),
        decreases p.stats.len() - i,
    {
        let stat = &p.stats[i];
        out.append("  - ");
        out.append(stat.name.as_str());
        out.append(": ");
        push_int(out, stat.base_stat);
        out.append("\n");
        proof {
            let upto = all.take(i + 1);
            assert(upto.drop_last() == all.take(i as int));
            assert(upto.last() == stat@);
            assert(out@ == start + (stat_lines(all.take(i as int)) + stat_line(stat@)));
        }
        i += 1;
    }
    assert(all.take(p.stats.len() as int) == all);
    assert(out@ == old(out)@ + stats_block(p@));
}

fn ability_labels(abilities: &Vec<Ability>) -> (labels: Vec<String>)
    ensures
        labels.deep_view() == abilities.deep_view().map_values(|a: AbilityView| ability_label(a)),
{
    let mut labels: Vec<String> = Vec::new();
    let mut i: usize = 0;
    while i < abilities.len()
        invariant
            i <= abilities.len(),
            labels.len() == i,
            forall|k: int| 0 <= k < i ==> (#[trigger] labels@[k])@ == ability_label(abilities@[k]@),
        decreases abilities.len() - i,
    {
        let ability = &abilities[i];
        let mut label = ability.name.clone();
        if ability.is_hidden {
            label.append(" (hidden)");
        }
        labels.push(label);
        i += 1;
    }
    assert(labels.deep_view() =~= abilities.deep_view().map_values(
        |a: AbilityView| ability_label(a),
    ));
    labels
}

fn push_abilities_line(out: &mut String, p: &Pokemon)
    ensures
        final(out)@ == old(out)@ + abilities_line(p@),
{
    out.append("Abilities: ");
    let labels = ability_labels(&p.abilities);
    push_joined(out, &labels, ", ");
    out.append("\n");
    assert(out@ == old(out)@ + abilities_line(p@));
}

fn push_size_lines(out: &mut String, p: &Pokemon)
    ensures
        final(out)@ == old(out)@ + size_lines(p@),
{
    out.append("Height: ");
    push_int(out, p.height);
    out.append(" dm\n");
    out.append("Weight: ");
    push_int(out, p.weight);
    out.append(" hg\n");
    assert(out@ == old(out)@ + size_lines(p@));
}

fn push_experience_line(out: &mut String, p: &Pokemon)
    ensures
        final(out)@ == old(out)@ + experience_line(p@),
{
    match p.base_experience {
        Some(x) => {
            out.append("Base Experience: ");
            push_int(out, x);
            out.append("\n");
            assert(out@ == old(out)@ + experience_line(p@));
        },
        None => {
            assert(out@ == old(out)@ + experience_line(p@));
        },
    }
}

/// Appends the full rendering of `p` to `out`.
pub fn push_pokemon(out: &mut String, p: &Pokemon)
    ensures
        final(out)@ == old(out)@ + pokemon_text(p@),
{
    push_name_line(out, p);
    push_id_line(out, p);
    push_types_line(out, p);
    push_stats_block(out, p);
    push_abilities_line(out, p);
    push_size_lines(out, p);
    push_experience_line(out, p);
    assert(out@ == old(out)@ + pokemon_text(p@));
}

fn push_bool(out: &mut String, b: bool)
    ensures
        final(out)@ == old(out)@ + bool_text(b),
{
    if b {
        out.append("true");
    } else {
        out.append("false");
    }
}

fn first_english_entry(entries: &Vec<FlavorText>) -> (found: Option<usize>)
    ensures
        match found {
            Some(i) => i < entries.len() && first_english(entries.deep_view()) == Some(
                entries@[i as int]@.flavor_text,
            ),
            None => first_english(entries.deep_view()) is None,
        },
{
    let ghost all = entries.deep_view();
    let mut i: usize = 0;
    assert(all.skip(0) == all);
    while i < entries.len()
        invariant
            i <= entries.len(),
            all == entries.deep_view(),
            first_english(all) == first_english(all.skip(i as int)),
        decreases entries.len() - i,
    {
        assert(all.skip(i as int)[0] == entries@[i as int]@);
        if same_text(entries[i].language.as_str(), "en") {
            return Some(i);
        }
        assert(all.skip(i as int).drop_first() == all.skip(i + 1));
        i += 1;
    }
    None
}

fn push_happiness_line(out: &mut String, s: &PokemonSpecies)
    ensures
        final(out)@ == old(out)@ + happiness_line(s@),
{
    match s.base_happiness {
        Some(h) => {
            out.append("  Base Happiness: ");
            push_int(out, h);
            out.append("\n");
            assert(out@ == old(out)@ + happiness_line(s@));
        },
        None => {
            assert(out@ == old(out)@ + happiness_line(s@));
        },
    }
}

fn push_description_line(out: &mut String, s: &PokemonSpecies)
    ensures
        final(out)@ == old(out)@ + description_line(s@),
{
    match first_english_entry(&s.flavor_text_entries) {
        Some(i) => {
            out.append("  Description: ");
            push_on_one_line(out, s.flavor_text_entries[i].flavor_text.as_str());
            out.append("\n");
            assert(out@ == old(out)@ + description_line(s@));
        },
        None => {
            assert(out@ == old(out)@ + description_line(s@));
        },
    }
}

fn push_capture_line(out: &mut String, s: &PokemonSpecies)
    ensures
        final(out)@ == old(out)@ + capture_line(s@),
{
    out.append("  Capture Rate: ");
    push_int(out, s.capture_rate);
    out.append("\n");
    assert(out@ == old(out)@ + capture_line(s@));
}

fn push_rarity_lines(out: &mut String, s: &PokemonSpecies)
    ensures
        final(out)@ == old(out)@ + rarity_lines(s@),
{
    out.append("  Is Legendary: ");
    push_bool(out, s.is_legendary);
    out.append("\n");
    out.append("  Is Mythical: ");
    push_bool(out, s.is_mythical);
    out.append("\n");
    assert(out@ == old(out)@ + rarity_lines(s@));
}

/// Appends the rendering of `s` to `out`.
pub fn push_species(out: &mut String, s: &PokemonSpecies)
    ensures
        final(out)@ == old(out)@ + species_text(s@),
{
    out.append("Species Information:\n");
    push_capture_line(out, s);
    push_happiness_line(out, s);
    push_rarity_lines(out, s);
    push_description_line(out, s);
    assert(out@ == old(out)@ + species_text(s@));
}

fn leading(moves: &Vec<String>, limit: usize) -> (head: Vec<String>)
    ensures
        head.deep_view() == if limit < moves.len() {
            moves.deep_view().take(limit as int)
        } else {
            moves.deep_view()
        },
{
    let n = if limit < moves.len() {
        limit
    } else {
        moves.len()
    };
    let mut head: Vec<String> = Vec::new();
    let mut i: usize = 0;
    while i < n
        invariant
            i <= n <= moves.len(),
            head.len() == i,
            forall|k: int| 0 <= k < i ==> (#[trigger] head@[k])@ == moves@[k]@,
        decreases n - i,
    {
        head.push(moves[i].clone());
        i += 1;
    }
    assert(head.deep_view() =~= moves.deep_view().take(n as int));
    assert(moves.deep_view().take(moves.len() as int) =~= moves.deep_view());
    head
}

impl PokeApiClient {
    /// Renders a creature record: name, number, types, stats, abilities,
    /// height, weight and, where known, base experience, one line each.
    pub fn format_pokemon_data(&self, pokemon: &Pokemon) -> (out: String)
        ensures
            out@ == pokemon_text(pokemon@),
    {
        let mut out = String::new();
        push_pokemon(&mut out, pokemon);
        assert(Seq::<char>::empty() + pokemon_text(pokemon@) == pokemon_text(pokemon@));
        out
    }

    /// Renders a creature record and, after an empty line, its species.
    pub fn format_pokemon_with_species(&self, pokemon: &Pokemon, species: &PokemonSpecies) -> (out:
        String)
        ensures
            out@ == pokemon_with_species_text(pokemon@, species@),
    {
        let mut out = self.format_pokemon_data(pokemon);
        out.append("\n");
        push_species(&mut out, species);
        out
    }

    /// Renders a species record alone.
    pub fn format_species_data(&self, species: &PokemonSpecies) -> (out: String)
        ensures
            out@ == species_text(species@),
    {
        let mut out = String::new();
        push_species(&mut out, species);
        assert(Seq::<char>::empty() + species_text(species@) == species_text(species@));
        out
    }

    /// Renders the name and the stats of a creature record.
    pub fn format_pokemon_stats(&self, pokemon: &Pokemon) -> (out: String)
        ensures
            out@ == pokemon_stats_text(pokemon@),
    {
        let mut out = String::new();
        push_name_line(&mut out, pokemon);
        push_stats_block(&mut out, pokemon);
        assert(out@ == pokemon_stats_text(pokemon@));
        out
    }

    /// Renders the name of a creature record and its first moves, `max_moves`
    /// of them at most.
    pub fn format_pokemon_moves(&self, pokemon: &Pokemon, max_moves: usize) -> (out: String)
        ensures
            out@ == pokemon_moves_text(pokemon@, max_moves as nat),
    {
        let mut out = String::new();
        push_name_line(&mut out, pokemon);
        out.append("Moves: ");
        let head = leading(&pokemon.moves, max_moves);
        push_joined(&mut out, &head, ", ");
        out.append("\n");
        assert(out@ == pokemon_moves_text(pokemon@, max_moves as nat));
        out
    }
}

} // verus!
