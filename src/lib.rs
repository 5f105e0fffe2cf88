//! A client library for a chat-completions service that must answer in JSON,
//! and the clarify-then-finalize negotiation that it drives.
//!
//! The library decides; its caller performs the network exchanges, the waits
//! and the console work, and hands back what came of them.
use vstd::prelude::*;

pub mod config;
pub mod error;
pub mod exchange;
pub mod json;
pub mod negotiation;
pub mod protocol;
pub mod retry;
pub mod text;

pub use config::Config;
pub use error::{DeepSeekError, ErrorKind};
pub use exchange::{ChatMessage, DeepSeekResponse};
pub use negotiation::{Negotiation, NegotiationOutcome, Phase, Step};
pub use protocol::{
    build_system_prompt, parse_taskfinisher_response, AnswersPayload, TaskFinisherResult,
    DEFAULT_MAX_QUESTIONS,
};
pub use retry::{RetryDecision, RetryPolicy, RetryState};

verus! {

} // verus!
