//! What is handed to the generation engine, and what comes back from it.
use vstd::prelude::*;
use crate::history::{History, MessageType, Turn, Conversation, appended, render_with, rendered};

verus! {

/// Token budget of a generation whose request names none.
pub const DEFAULT_MAX_TOKENS: usize = 128;

/// A generation request.
#[derive(Debug)]
pub struct Options {
    /// Content that stands in for the system turn in this request only.
    pub setup: Option<String>,
    /// The user's prompt; it is not checked for emptiness here.
    pub prompt: String,
    /// Token budget; `DEFAULT_MAX_TOKENS` where absent.
    pub max_tokens: Option<usize>,
}

/// What the engine is asked to do: continue `prompt` for at most
/// `max_tokens` tokens.
#[derive(Debug)]
pub struct EngineRequest {
    pub prompt: String,
    pub max_tokens: usize,
}

/// Why the engine produced no text.
#[derive(Debug)]
pub struct EngineError {
    pub message: String,
}

/// The token budget for an optional requested one.
pub open spec fn token_budget(max_tokens: Option<usize>) -> usize {
    match max_tokens {
        Some(n) => n,
        None => DEFAULT_MAX_TOKENS,
    }
}

/// The prompt that a conversation renders to, with the system content
/// replaced where `setup` is given.
pub open spec fn request_prompt(c: Conversation, setup: Option<String>) -> Seq<char> {
    match setup {
        Some(s) => render_with(Turn { role: MessageType::System, content: s@ }, c.turns),
        None => rendered(c),
    }
}

/// Records the user's prompt in the history, then renders the history into
/// the request for the engine, so that the prompt includes the current turn.
pub fn prepare_generation(history: &mut History, opts: Options) -> (r: EngineRequest)
    ensures
        final(history)@ == appended(old(history)@, MessageType::User, opts.prompt@),
        r.prompt@ == request_prompt(final(history)@, opts.setup),
        r.max_tokens == token_budget(opts.max_tokens),
{
    let Options { setup, prompt, max_tokens } = opts;
    history.push(MessageType::User, prompt);
    let rendered = match setup {
        Some(v) => history.get_with_system(v),
        None => history.get(),
    };
    let budget = match max_tokens {
        Some(n) => n,
        None => DEFAULT_MAX_TOKENS,
    };
    EngineRequest { prompt: rendered, max_tokens: budget }
}

} // verus!
