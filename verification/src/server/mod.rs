//! Answering Discord interactions.
pub mod cleanup;
pub mod error;
pub mod followup;
pub mod handlers;
pub mod help;
pub mod into_interaction_response;
pub mod into_response;
pub mod key;
pub mod route;
pub mod validate;
