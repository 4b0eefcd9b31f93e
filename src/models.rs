//! The structured shapes that sections are decoded into.
use vstd::prelude::*;

pub mod company;
pub mod financial;

verus! {

/// A request to the local backend's one-shot generation endpoint.
pub struct OllamaRequest<'a> {
    pub model: &'a str,
    pub prompt: &'a str,
    pub stream: bool,
    pub format: &'a str,
}

/// An answer of the local backend's one-shot generation endpoint.
pub struct OllamaResponse {
    pub response: String,
}

} // verus!
