//! Response shapes of the plain-completion endpoint.

use vstd::prelude::*;

verus! {

/// One of the choices returned by the completion endpoint.
#[derive(Debug)]
pub struct CompletionChoice {
    pub text: String,
    pub index: u32,
    pub logprobs: Option<u64>,
    pub finish_reason: String,
}

/// A parsed response from the completion endpoint.
#[derive(Debug)]
pub struct CompletionResponse {
    pub id: String,
    pub object: String,
    pub created: u64,
    pub model: String,
    pub choices: Vec<CompletionChoice>,
}

} // verus!
