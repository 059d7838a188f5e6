//! The outside services: the key-value store and the mail server.

pub mod redis;
pub mod store_model;
pub mod store_laws;
pub mod email;
