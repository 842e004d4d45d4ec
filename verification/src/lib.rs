//! A small chat-completion client library.
//!
//! A `Messages` transcript collects role-tagged utterances in insertion
//! order; an `LLMClient` turns a transcript into a completion request for
//! one vendor's wire format, hands it to a `Transport`, and renders the
//! outcome as text.  The one concrete provider speaks the OpenAI-style
//! chat-completion protocol.

pub mod api;
pub mod chat;
pub mod json;
pub mod openai;
pub mod text;
