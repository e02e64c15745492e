//! The databases: the bot's local database of enabled channels, and the exported database.
pub mod bot;
pub mod calls;
pub mod error;
pub mod export;
pub mod export_calls;
pub mod to_sql_integer;
