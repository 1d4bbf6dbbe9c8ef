//! Orchestration between a caller and a remote text-generation service:
//! health probing, timed generation and audit logging of every exchange.
//!
//! The library decides and describes; it does not send, read or wait. Its
//! caller performs the requests and the inserts and reports how they went.
//!
//! - [`config`]: the settings that must be there at startup.
//! - [`api`]: the client of the generation service. Which requests go out,
//!   and what a probe or an answer comes to.
//! - [`database`]: the audit record and the store that it is appended to.
//! - [`agent`]: the generate-and-log run, a state machine over the two.
//! - [`run`]: what holds of every run of that machine.
//! - [`error`]: the failures and their messages.
//! - [`timing`]: clock readings, elapsed time and timestamps.
//! - [`json`], [`status`], [`text`]: JSON by way of `serde_json`, HTTP status
//!   lines by way of `reqwest`, and decimal notation.
//! - [`wasm`]: the text transformation offered to browser callers.
//!
//! Four functions are believed and not proved. Each wraps calls into an
//! outside crate and says of the result only that it depends on the arguments
//! alone: `json::quote` and `json::text_member` (`serde_json`),
//! `status::display_status` (`reqwest`) and the writer of timestamps in
//! `timing` (`chrono`).

pub mod agent;
pub mod api;
pub mod config;
pub mod database;
pub mod error;
pub mod json;
pub mod run;
pub mod status;
pub mod text;
pub mod timing;
pub mod wasm;
