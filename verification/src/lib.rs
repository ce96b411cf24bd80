//! An OpenAI-compatible inference gateway core: registries of named model
//! runtimes, a chat/embedding/image dispatch engine with response caching,
//! bearer-token authorization with per-token rate limiting, and the framing
//! of server-sent-event chat streams.
pub mod auth;
pub mod cache;
pub mod chat;
pub mod digest;
pub mod dto;
pub mod encoding;
pub mod engine;
pub mod error;
pub mod fingerprint;
pub mod jsonfmt;
pub mod registry;
pub mod runtime;
pub mod stream;
pub mod strutil;
pub mod sys;
