//! A multi-provider completion gateway.
//!
//! One provider-agnostic request and message model (`message`, `completion`,
//! `streaming`); for each provider the encoding of requests, the decoding of
//! answers and the reconstruction of streamed answers (`deepseek`,
//! `ollama`); the registry of providers and the building of agents
//! (`agent_builder`, `agent`, `mananger`); and the task lifecycle state
//! machine (`engine`).
//!
//! The library computes on values and neither reads nor sends anything:
//! whoever uses it does the HTTP, runs the tool servers and writes the store.

pub mod json;
pub mod text;
pub mod views;
pub mod one_or_many;
pub mod message;
pub mod completion;
pub mod streaming;
pub mod agent;
pub mod client;
pub mod agent_support;
pub mod agent_builder;
pub mod mananger;
pub mod workflow;
pub mod deepseek;
pub mod ollama;
pub mod entities;
pub mod engine;
