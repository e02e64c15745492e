//! DAAS-Bot lets you use Discord As A Spreadsheet: the verified core of the bot.
pub mod export;
pub mod ids;
pub mod register;
pub mod server;
pub mod sql;
pub mod text;
