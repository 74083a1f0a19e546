//! The three request handlers: status, clear and generate.
//!
//! Each handler checks the shared secret first; a request without the right
//! secret is answered with 401 and neither reads nor changes the state.
//! Results are an HTTP status code and a response body.
//! A generation is handled in two steps, so that the engine runs while
//! the state is free for status requests: `begin_generate` claims the slot
//! and yields the request for the engine; `finish_generate` records what the
//! engine returned and releases the slot.
use vstd::prelude::*;
use crate::auth::{authorized, valid_header};
use crate::llm::{Options, EngineRequest, EngineError, request_prompt, token_budget};
use crate::slot::{Sidecar, after_begin, after_clear, after_finish, produced};

verus! {

pub const STATUS_OK: u16 = 200;

pub const STATUS_UNAUTHORIZED: u16 = 401;

pub const STATUS_CONFLICT: u16 = 409;

pub const STATUS_INTERNAL_SERVER_ERROR: u16 = 500;

/// Message of the response to a failed generation.
pub const GENERATION_FAILURE_MESSAGE: &'static str = "unable to create token generation stream";

/// Body of the answer to a status request.
#[derive(Debug, Clone, Copy, PartialEq, Eq, Structural)]
pub enum IsBusyResponse {
    Ready,
    Busy,
}

/// Body of the answer to a clear request.
#[derive(Debug, Clone, Copy, PartialEq, Eq, Structural)]
pub enum ClearHistoryResponse {
    Success,
    Busy,
}

/// Body of the answer to a generate request.
#[derive(Debug, Clone, PartialEq, Eq)]
pub enum GenerateResponse {
    Success { message: String },
    Busy,
    GenerateError { message: String },
}

/// Answers whether a generation holds the slot.
pub fn handle_is_busy(state: &Sidecar, header: &Option<String>, secret: &String) -> (r: (u16, IsBusyResponse))
    ensures
        !authorized(*header, secret@) ==> r == (STATUS_UNAUTHORIZED, IsBusyResponse::Busy),
        authorized(*header, secret@) ==> r == (STATUS_OK, if state@.busy {
            IsBusyResponse::Busy
        } else {
            IsBusyResponse::Ready
        }),
{
    if !valid_header(header, secret) {
        return (STATUS_UNAUTHORIZED, IsBusyResponse::Busy);
    }
    if state.is_busy() {
        (STATUS_OK, IsBusyResponse::Busy)
    } else {
        (STATUS_OK, IsBusyResponse::Ready)
    }
}

/// Clears the history where the slot is free; answers 409 without any
/// change where a generation holds it.
pub fn clear_history(state: &mut Sidecar, header: &Option<String>, secret: &String) -> (r: (u16, ClearHistoryResponse))
    ensures
        !authorized(*header, secret@) ==> {
            &&& r == (STATUS_UNAUTHORIZED, ClearHistoryResponse::Busy)
            &&& final(state)@ == old(state)@
        },
        authorized(*header, secret@) ==> {
            &&& final(state)@ == after_clear(old(state)@)
            &&& r == if old(state)@.busy {
                (STATUS_CONFLICT, ClearHistoryResponse::Busy)
            } else {
                (STATUS_OK, ClearHistoryResponse::Success)
            }
        },
{
    if !valid_header(header, secret) {
        return (STATUS_UNAUTHORIZED, ClearHistoryResponse::Busy);
    }
    match state.clear() {
        Ok(()) => (STATUS_OK, ClearHistoryResponse::Success),
        Err(_) => (STATUS_CONFLICT, ClearHistoryResponse::Busy),
    }
}

/// First step of a generate request: checks the secret, claims the slot,
/// records the prompt as a user turn and yields the request for the
/// engine. Where the secret is wrong or the slot is held, the answer is
/// returned at once and nothing changes.
pub fn begin_generate(state: &mut Sidecar, header: &Option<String>, secret: &String, opts: Options) -> (r:
    Result<EngineRequest, (u16, GenerateResponse)>)
    ensures
        !authorized(*header, secret@) ==> {
            &&& r == Err::<EngineRequest, _>((STATUS_UNAUTHORIZED, GenerateResponse::Busy))
            &&& final(state)@ == old(state)@
        },
        authorized(*header, secret@) ==> {
            &&& final(state)@ == after_begin(old(state)@, opts.prompt@)
            &&& old(state)@.busy ==> r == Err::<EngineRequest, _>(
                (STATUS_CONFLICT, GenerateResponse::Busy),
            )
            &&& !old(state)@.busy ==> (r matches Ok(req) && req.prompt@ == request_prompt(
                final(state)@.conversation,
                opts.setup,
            ) && req.max_tokens == token_budget(opts.max_tokens))
        },
{
    if !valid_header(header, secret) {
        return Err((STATUS_UNAUTHORIZED, GenerateResponse::Busy));
    }
    match state.try_begin(opts) {
        Ok(req) => Ok(req),
        Err(_) => Err((STATUS_CONFLICT, GenerateResponse::Busy)),
    }
}

/// Second step of a generate request: records the engine's text as an
/// assistant turn and answers with it, or answers 500 where the engine
/// failed; the slot is released either way.
pub fn finish_generate(state: &mut Sidecar, outcome: Result<String, EngineError>) -> (r: (u16, GenerateResponse))
    requires
        old(state)@.busy,
    ensures
        final(state)@ == after_finish(old(state)@, produced(outcome)),
        match outcome {
            Ok(text) => {
                &&& r.0 == STATUS_OK
                &&& (r.1 matches GenerateResponse::Success { message } && message@ == text@)
            },
            Err(_) => {
                &&& r.0 == STATUS_INTERNAL_SERVER_ERROR
                &&& (r.1 matches GenerateResponse::GenerateError { message } && message@
                    == GENERATION_FAILURE_MESSAGE@)
            },
        },
{
    match state.finish(outcome) {
        Ok(message) => (STATUS_OK, GenerateResponse::Success { message }),
        Err(_) => (
            STATUS_INTERNAL_SERVER_ERROR,
            GenerateResponse::GenerateError { message: String::from_str(GENERATION_FAILURE_MESSAGE) },
        ),
    }
}

} // verus!
