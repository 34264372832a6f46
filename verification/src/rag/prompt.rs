use vstd::prelude::*;

verus! {

/// How the first prompt of a question opens.
pub const AGENT_OPENING: &'static str =
    "You are a Pokemon assistant agent. Decide whether to call one of the available tools to fetch Pokemon data, or answer directly. ";

/// The tools that the generation service may ask for, and the two shapes in
/// which it is to respond.
pub const TOOLS_DESCRIPTION: &'static str =
    "\nAvailable tools you can call:\n1) get_pokemon(name) -> Returns detailed Pokemon data for a given name or id.\n2) get_pokemon_species(name) -> Returns species information (flavor text, capture rate, etc.).\n3) get_pokemon_stats(name) -> Returns only base stats for a given pokemon.\n4) get_pokemon_moves(name) -> Returns a compact move list for a given pokemon.\n\nIf you need to call a tool, respond with a JSON object exactly in this shape:\n  {\"type\":\"action\",\"tool\":\"get_pokemon\",\"name\":\"pikachu\"}\nor\n  {\"type\":\"action\",\"tool\":\"get_pokemon_species\",\"name\":\"pikachu\"}\nor\n  {\"type\":\"action\",\"tool\":\"get_pokemon_stats\",\"name\":\"pikachu\"}\nor\n  {\"type\":\"action\",\"tool\":\"get_pokemon_moves\",\"name\":\"pikachu\"}\n\nIf you can answer the user directly without calling a tool, respond with:\n  {\"type\":\"final\",\"answer\":\"<your answer>\"}\n";

/// What stands before the question in the first prompt.
pub const QUESTION_LABEL: &'static str = "\nUser Question: ";

/// What stands before the output of a tool in the second prompt.
pub const TOOL_OUTPUT_LABEL: &'static str = "Tool output:\n";

/// What stands between the output of a tool and the question.
pub const FOLLOWUP_REQUEST: &'static str =
    "\n\nBased on the tool output above, provide a concise, user-facing answer to the original question: ";

/// The context of a question in which no creature's name was found.
pub const GENERIC_CONTEXT: &'static str =
    "You are a Pokemon assistant. Answer questions about Pokemon using general knowledge. If asked about a specific Pokemon, you may need the Pokemon name to provide detailed information.";

/// The most moves that the tool for moves lists.
pub const MOVES_SHOWN: usize = 30;

/// The first prompt of a question: it lists the tools and asks for a decision.
pub open spec fn initial_prompt(query: Seq<char>) -> Seq<char> {
    AGENT_OPENING@ + TOOLS_DESCRIPTION@ + QUESTION_LABEL@ + query
}

/// The second prompt of a question that a tool was called for: it shows what
/// the tool gave and asks for the answer.
pub open spec fn followup_prompt(tool_output: Seq<char>, query: Seq<char>) -> Seq<char> {
    TOOL_OUTPUT_LABEL@ + tool_output + FOLLOWUP_REQUEST@ + query
}

/// What a tool gives when the lookup of a creature failed.
pub open spec fn pokemon_error_text(message: Seq<char>) -> Seq<char> {
    "Error fetching pokemon: "@ + message
}

/// What a tool gives when the lookup of a species failed.
pub open spec fn species_error_text(message: Seq<char>) -> Seq<char> {
    "Error fetching species: "@ + message
}

/// What the tool for stats gives when the lookup failed.
pub open spec fn stats_error_text(message: Seq<char>) -> Seq<char> {
    "Error fetching pokemon stats: "@ + message
}

/// What the tool for moves gives when the lookup failed.
pub open spec fn moves_error_text(message: Seq<char>) -> Seq<char> {
    "Error fetching pokemon moves: "@ + message
}

/// What stands for the output of a tool that does not exist.
pub open spec fn unknown_tool_text(tool: Seq<char>) -> Seq<char> {
    "Unknown tool requested: "@ + tool
}

/// Builds the first prompt of a question.
pub fn build_initial_prompt(query: &str) -> (prompt: String)
    ensures
        prompt@ == initial_prompt(query@),
{
    let mut prompt = String::new();
    prompt.append(AGENT_OPENING);
    prompt.append(TOOLS_DESCRIPTION);
    prompt.append(QUESTION_LABEL);
    prompt.append(query);
    assert(prompt@ == initial_prompt(query@));
    prompt
}

/// Builds the second prompt of a question that a tool was called for.
pub fn build_followup_prompt(tool_output: &str, query: &str) -> (prompt: String)
    ensures
        prompt@ == followup_prompt(tool_output@, query@),
{
    let mut prompt = String::new();
    prompt.append(TOOL_OUTPUT_LABEL);
    prompt.append(tool_output);
    prompt.append(FOLLOWUP_REQUEST);
    prompt.append(query);
    assert(prompt@ == followup_prompt(tool_output@, query@));
    prompt
}

/// `label` followed by `detail`.
pub fn labelled(label: &str, detail: &str) -> (text: String)
    ensures
        text@ == label@ + detail@,
{
    let mut text = String::new();
    text.append(label);
    text.append(detail);
    assert(text@ == label@ + detail@);
    text
}

} // verus!
