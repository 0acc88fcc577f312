//! A typed client core for the Richamster exchange's public HTTP API: which
//! request to send to which endpoint, how to prove identity in its headers,
//! and how to read the response by its status code.

pub mod api;
pub mod console;
pub mod errors;
pub mod models;
pub mod richamster;
pub mod text;
