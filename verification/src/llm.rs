//! The model-provider responses and failures the pipeline reads, held as
//! plain values.

use vstd::prelude::*;

verus! {

/// A provider failure, by kind, with the text it carried.
#[derive(Debug)]
pub enum LlmFailure {
    /// The request was rejected as unauthenticated.
    Authentication { message: String },
    /// The provider rate-limited the request.
    RateLimit { message: String },
    /// The provider rejected the request as malformed.
    InvalidRequest { message: String },
    /// A transport-level failure, described.
    Network { description: String },
    /// The provider answered with an error status.
    Api { status: u16, message: String },
    /// A router in front of the provider answered with an error status.
    RouterApi { status: u16, error_type: String },
    /// The response could not be parsed, described.
    Parse { description: String },
    /// An internal failure of the client.
    Internal { message: String },
    /// Any other failure, described.
    Other { description: String },
}

/// One choice of a chat-completion response: why generation stopped, and the
/// message text, if any.
#[derive(Debug)]
pub struct ChatChoice {
    pub finish_reason: Option<String>,
    pub content: Option<String>,
}

/// A chat-completion response: its choices, in order.
#[derive(Debug)]
pub struct ChatCompletion {
    pub choices: Vec<ChatChoice>,
}

} // verus!
