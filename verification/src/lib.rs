//! Fallback-value synthesis: when a fallible or optional computation yields no
//! value, a chat-completion backend is asked for a plausible substitute of the
//! expected type.
//!
//! This crate holds the decisions of that mechanism as verified functions on
//! plain values. The caller performs the network exchange and the decoding of
//! the reply into its own types, and hands each result back.

pub mod json;
pub mod text;
pub mod groq_client;
pub mod unwrap_or_ai;
pub mod capture;
