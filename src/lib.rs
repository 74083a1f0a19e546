//! Session and state orchestration for a local text-generation sidecar.
//!
//! The library holds the conversation history and renders it into the
//! prompt that the generation engine reads, the shared-secret gate in front
//! of every request, the single-flight slot that guards the engine, and the
//! three request handlers (status, clear, generate) built on them.
pub mod history;
pub mod auth;
pub mod llm;
pub mod slot;
pub mod api;
