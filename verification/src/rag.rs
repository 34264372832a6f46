use vstd::prelude::*;
use crate::gemini::{ConfigError, GeminiClient, GeminiClientView, DEFAULT_BASE_URL};
use crate::pokeapi::PokeApiClient;

pub mod decision;
pub mod laws;
pub mod prompt;
pub mod session;

verus! {

/// Answers questions about creatures: it decides, question by question,
/// whether and what to look up, and words what the generation service is
/// asked. The calls themselves are made by its user.
pub struct RAGEngine {
    gemini: GeminiClient,
    pokeapi: PokeApiClient,
}

impl RAGEngine {
    /// An engine with the given credential for the generation service.
    /// Without a credential there is no engine.
    pub fn new(api_key: Option<String>) -> (made: Result<RAGEngine, ConfigError>)
        ensures
            match api_key {
                Some(key) => made matches Ok(engine) && engine.gemini_view() == (GeminiClientView {
                    api_key: key@,
                    base_url: DEFAULT_BASE_URL@,
                }),
                None => made matches Err(e) && e == ConfigError::MissingApiKey,
            },
    {
        match GeminiClient::new(api_key) {
            Ok(gemini) => Ok(RAGEngine { gemini, pokeapi: PokeApiClient::new() }),
            Err(e) => Err(e),
        }
    }

    /// The client of the generation service, as a value.
    pub closed spec fn gemini_view(&self) -> GeminiClientView {
        self.gemini@
    }

    /// The client of the generation service.
    pub fn gemini(&self) -> (client: &GeminiClient)
        ensures
            client@ == self.gemini_view(),
    {
        &self.gemini
    }

    /// The client of the lookup service.
    pub fn pokeapi(&self) -> (client: &PokeApiClient) {
        &self.pokeapi
    }
}

} // verus!
