//! The parts of a chat completion that hold no number with a fraction.

use vstd::prelude::*;

verus! {

/// One message of a chat: who speaks, and what is said.
#[derive(Debug)]
pub struct Message {
    pub role: String,
    pub content: String,
}

/// The format asked of the answer.
#[derive(Debug)]
pub struct ResponseFormat {
    pub kind: String,
}

/// What a completion cost, in tokens.
#[derive(Debug, Clone, Copy, PartialEq, Eq, Structural)]
pub struct Usage {
    pub prompt_tokens: u32,
    pub completion_tokens: u32,
    pub total_tokens: u32,
}

} // verus!
