//! The single-flight generation slot and the history it guards.
//!
//! The slot and the history are one piece of state: whoever holds a
//! `Sidecar` exclusively may claim the slot and change the history in one
//! step, and releasing the slot after a generation records its result in
//! the same step, so that no one sees a free slot before the new turn.
use vstd::prelude::*;
use crate::history::{History, MessageType, Conversation, appended, cleared, seeded};
use crate::llm::{Options, EngineRequest, EngineError, prepare_generation, request_prompt, token_budget};

verus! {

/// The slot and the conversation as values.
pub struct SidecarState {
    /// The engine is producing text for a request.
    pub busy: bool,
    pub conversation: Conversation,
}

/// The slot was already claimed; nothing was changed.
#[derive(Debug, Clone, Copy, PartialEq, Eq, Structural)]
pub struct Conflict;

/// Why a generation produced no text.
#[derive(Debug, Clone, Copy, PartialEq, Eq, Structural)]
pub enum GenerateError {
    /// The slot was already claimed; nothing was changed.
    Conflict,
    /// The engine failed; the slot was released.
    GenerationFailure,
}

/// The state after an attempt to start a generation with `prompt`: where
/// the slot is free it is claimed and the prompt becomes a user turn,
/// else nothing changes.
pub open spec fn after_begin(s: SidecarState, prompt: Seq<char>) -> SidecarState {
    if s.busy {
        s
    } else {
        SidecarState {
            busy: true,
            conversation: appended(s.conversation, MessageType::User, prompt),
        }
    }
}

/// The text that the engine produced, if it did.
pub open spec fn produced(outcome: Result<String, EngineError>) -> Option<Seq<char>> {
    match outcome {
        Ok(text) => Some(text@),
        Err(_) => None,
    }
}

/// The state after a generation ends: the slot is free, and the text, if
/// any, is the last turn, the assistant's.
pub open spec fn after_finish(s: SidecarState, text: Option<Seq<char>>) -> SidecarState {
    SidecarState {
        busy: false,
        conversation: match text {
            Some(t) => appended(s.conversation, MessageType::Assistant, t),
            None => s.conversation,
        },
    }
}

/// The state after a request to clear the history: done only while the
/// slot is free.
pub open spec fn after_clear(s: SidecarState) -> SidecarState {
    if s.busy {
        s
    } else {
        SidecarState { busy: false, conversation: cleared(s.conversation) }
    }
}

/// The generation slot and the conversation it guards.
#[derive(Debug)]
pub struct Sidecar {
    busy: bool,
    history: History,
}

impl View for Sidecar {
    type V = SidecarState;

    closed spec fn view(&self) -> SidecarState {
        SidecarState { busy: self.busy, conversation: self.history@ }
    }
}

impl Sidecar {
    /// A free slot and a history seeded with the system content.
    pub fn new(system_content: String) -> (r: Sidecar)
        ensures
            r@ == (SidecarState { busy: false, conversation: seeded(system_content@) }),
    {
        Sidecar { busy: false, history: History::new(system_content) }
    }

    /// Whether a generation holds the slot.
    pub fn is_busy(&self) -> (r: bool)
        ensures
            r == self@.busy,
    {
        self.busy
    }

    /// The conversation.
    pub fn history(&self) -> (r: &History)
        ensures
            r@ == self@.conversation,
    {
        &self.history
    }

    /// Claims the slot for a generation, records the prompt as a user turn
    /// and renders the request for the engine; a `Conflict` without any
    /// change where the slot is held.
    pub fn try_begin(&mut self, opts: Options) -> (r: Result<EngineRequest, Conflict>)
        ensures
            final(self)@ == after_begin(old(self)@, opts.prompt@),
            r is Err <==> old(self)@.busy,
            r matches Ok(req) ==> {
                &&& req.prompt@ == request_prompt(final(self)@.conversation, opts.setup)
                &&& req.max_tokens == token_budget(opts.max_tokens)
            },
    {
        if self.busy {
            return Err(Conflict);
        }
        self.busy = true;
        let req = prepare_generation(&mut self.history, opts);
        Ok(req)
    }

    /// Ends the generation that holds the slot: records the engine's text
    /// as an assistant turn, if there is one, then releases the slot. A
    /// failure leaves the user turn of the request in place.
    pub fn finish(&mut self, outcome: Result<String, EngineError>) -> (r: Result<String, GenerateError>)
        requires
            old(self)@.busy,
        ensures
            final(self)@ == after_finish(old(self)@, produced(outcome)),
            match outcome {
                Ok(text) => r matches Ok(t) && t@ == text@,
                Err(_) => r == Err::<String, GenerateError>(GenerateError::GenerationFailure),
            },
    {
        match outcome {
            Ok(text) => {
                self.history.push(MessageType::Assistant, text.clone());
                self.busy = false;
                Ok(text)
            },
            Err(_) => {
                self.busy = false;
                Err(GenerateError::GenerationFailure)
            },
        }
    }

    /// Removes every turn but the system turn, where the slot is free; a
    /// `Conflict` without any change where it is held.
    pub fn clear(&mut self) -> (r: Result<(), Conflict>)
        ensures
            final(self)@ == after_clear(old(self)@),
            r is Err <==> old(self)@.busy,
    {
        if self.busy {
            return Err(Conflict);
        }
        self.history.clear();
        Ok(())
    }
}

/// Single flight: once a generation has claimed a free slot, every further
/// attempt finds it held and changes nothing, until that generation ends;
/// when it ends, the slot is free again.
pub proof fn lemma_single_flight(s: SidecarState, first: Seq<char>, second: Seq<char>, text: Option<Seq<char>>)
    requires
        !s.busy,
    ensures
        after_begin(s, first).busy,
        after_begin(after_begin(s, first), second) == after_begin(s, first),
        !after_finish(after_begin(s, first), text).busy,
{
}

/// A clear that arrives while a generation holds the slot changes nothing.
pub proof fn lemma_clear_while_busy(s: SidecarState)
    requires
        s.busy,
    ensures
        after_clear(s) == s,
{
}

} // verus!
