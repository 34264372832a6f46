use vstd::prelude::*;

pub mod lookup;
pub mod model;
pub mod render;
pub mod search;
pub mod slug;

verus! {

/// The library's side of the lookup service: what to ask it for, and how its
/// records are named, found in a question and rendered.
pub struct PokeApiClient {}

impl PokeApiClient {
    /// A client. It holds nothing: the connection to the service belongs to
    /// the program that makes the calls.
    pub fn new() -> (client: PokeApiClient) {
        PokeApiClient {  }
    }
}

} // verus!
