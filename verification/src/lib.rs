//! A client-side model of the JokeAPI request and response: a validated
//! request builder, the exact query it produces, and the decoding of a reply
//! into a one-part or two-part joke.

pub mod builder;
pub mod error;
pub mod reply;
pub mod structs;
pub mod text;
pub mod vocabulary;

pub use builder::Joke;
