//! A conversational assistant for questions about Pokemon, as a library of
//! decisions: what to ask a text generation service, what to look up in a
//! data service, and how to put the two together into an answer. The calls
//! to the services are left to the program that uses the library.

pub mod chars;
pub mod chat;
pub mod decimal;
pub mod gemini;
pub mod image;
pub mod json;
pub mod pokeapi;
pub mod rag;
pub mod text;
