//! A local session proxy for a remote music service: per-session OAuth state,
//! the authorization-code rendezvous, rate-limit backoff and request
//! forwarding, as state machines that a driver runs against the network; with
//! the command-line tokenizer and parser and the resource-URI helpers of its
//! command tool.
pub mod auth;
pub mod command;
pub mod errors;
pub mod forms;
pub mod forward;
pub mod parser;
pub mod pkce;
pub mod proxy;
pub mod registry;
pub mod text;
pub mod uri_helper;
