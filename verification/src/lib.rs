//! OpenAI- and Anthropic-compatible request handling on top of the Codex CLI.
//!
//! The crate holds the decisions that the HTTP service makes: how requests are
//! normalised, which prompt and arguments Codex is given, how Codex events become
//! response chunks, and how sessions, rate limits and cached models evolve. The
//! server around it performs the I/O, and decides what takes floating-point numbers:
//! the band of a temperature, the text of `top_p`, and prices.

pub mod anthropic;
pub mod auth;
pub mod clock;
pub mod config;
pub mod error;
pub mod exec;
pub mod ids;
pub mod image;
pub mod json;
pub mod limiter;
pub mod log;
pub mod models;
pub mod pages;
pub mod prompt;
pub mod reasoning;
pub mod request;
pub mod reply;
pub mod rpc;
pub mod schema;
pub mod sessions;
pub mod stream;
pub mod text;
pub mod thread;
pub mod toml;
pub mod turn;
pub mod usage;
