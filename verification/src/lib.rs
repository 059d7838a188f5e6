//! Core of an e-mail one-time-password service.
//!
//! - `services::redis`: the store protocols (rate limit on requests with
//!   exponential back-off, storing a code, checking a code) as state
//!   machines that name the store commands to send;
//! - `services::store_model` and `services::store_laws`: a model of the
//!   key-value store and what the protocols do to it;
//! - `services::email`: the SMTP transport set-up and the e-mail that
//!   carries a code;
//! - `handlers`: the two request handlers (request a code, check a code)
//!   as state machines, code drawing and token issuing;
//! - `flow_laws`: what a granted request leads to;
//! - `config`, `error`, `models`, `text`: settings, errors and their
//!   replies, payloads, and decimal text.

pub mod text;
pub mod error;
pub mod models;
pub mod services;
pub mod config;
pub mod handlers;
pub mod flow_laws;
