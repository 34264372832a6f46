use vstd::prelude::*;

verus! {

/// One base stat of a creature.
#[derive(Debug, PartialEq, Eq)]
pub struct Stat {
    pub name: String,
    pub base_stat: i64,
}

/// A stat as a mathematical value.
pub struct StatView {
    pub name: Seq<char>,
    pub base_stat: int,
}

impl View for Stat {
    type V = StatView;

    open spec fn view(&self) -> StatView {
        StatView { name: self.name@, base_stat: self.base_stat as int }
    }
}

impl DeepView for Stat {
    type V = StatView;

    open spec fn deep_view(&self) -> StatView {
        self@
    }
}

/// One ability of a creature.
#[derive(Debug, PartialEq, Eq)]
pub struct Ability {
    pub name: String,
    pub is_hidden: bool,
}

/// An ability as a mathematical value.
pub struct AbilityView {
    pub name: Seq<char>,
    pub is_hidden: bool,
}

impl View for Ability {
    type V = AbilityView;

    open spec fn view(&self) -> AbilityView {
        AbilityView { name: self.name@, is_hidden: self.is_hidden }
    }
}

impl DeepView for Ability {
    type V = AbilityView;

    open spec fn deep_view(&self) -> AbilityView {
        self@
    }
}

/// A description of a species in one language.
#[derive(Debug, PartialEq, Eq)]
pub struct FlavorText {
    pub language: String,
    pub flavor_text: String,
}

/// A flavor text as a mathematical value.
pub struct FlavorTextView {
    pub language: Seq<char>,
    pub flavor_text: Seq<char>,
}

impl View for FlavorText {
    type V = FlavorTextView;

    open spec fn view(&self) -> FlavorTextView {
        FlavorTextView { language: self.language@, flavor_text: self.flavor_text@ }
    }
}

impl DeepView for FlavorText {
    type V = FlavorTextView;

    open spec fn deep_view(&self) -> FlavorTextView {
        self@
    }
}

/// What the lookup service tells of one creature, as far as answers use it.
#[derive(Debug, PartialEq, Eq)]
pub struct Pokemon {
    pub id: i64,
    pub name: String,
    pub base_experience: Option<i64>,
    /// In decimetres.
    pub height: i64,
    /// In hectograms.
    pub weight: i64,
    pub abilities: Vec<Ability>,
    pub moves: Vec<String>,
    pub stats: Vec<Stat>,
    pub types: Vec<String>,
}

/// A creature record as a mathematical value.
pub struct PokemonView {
    pub id: int,
    pub name: Seq<char>,
    pub base_experience: Option<int>,
    pub height: int,
    pub weight: int,
    pub abilities: Seq<AbilityView>,
    pub moves: Seq<Seq<char>>,
    pub stats: Seq<StatView>,
    pub types: Seq<Seq<char>>,
}

impl View for Pokemon {
    type V = PokemonView;

    open spec fn view(&self) -> PokemonView {
        PokemonView {
            id: self.id as int,
            name: self.name@,
            base_experience: match self.base_experience {
                Some(x) => Some(x as int),
                None => None,
            },
            height: self.height as int,
            weight: self.weight as int,
            abilities: self.abilities.deep_view(),
            moves: self.moves.deep_view(),
            stats: self.stats.deep_view(),
            types: self.types.deep_view(),
        }
    }
}

/// What the lookup service tells of one species, as far as answers use it.
#[derive(Debug, PartialEq, Eq)]
pub struct PokemonSpecies {
    pub capture_rate: i64,
    pub base_happiness: Option<i64>,
    pub is_legendary: bool,
    pub is_mythical: bool,
    pub flavor_text_entries: Vec<FlavorText>,
}

/// A species record as a mathematical value.
pub struct PokemonSpeciesView {
    pub capture_rate: int,
    pub base_happiness: Option<int>,
    pub is_legendary: bool,
    pub is_mythical: bool,
    pub flavor_text_entries: Seq<FlavorTextView>,
}

impl View for PokemonSpecies {
    type V = PokemonSpeciesView;

    open spec fn view(&self) -> PokemonSpeciesView {
        PokemonSpeciesView {
            capture_rate: self.capture_rate as int,
            base_happiness: match self.base_happiness {
                Some(x) => Some(x as int),
                None => None,
            },
            is_legendary: self.is_legendary,
            is_mythical: self.is_mythical,
            flavor_text_entries: self.flavor_text_entries.deep_view(),
        }
    }
}

} // verus!
