# daas_bot

DAAS-Bot lets you use Discord As A Spreadsheet: messages of an enabled channel written as
`**Title** _tag_ ... description` are collected, together with the reactions on them, into a
Sqlite database that the bot posts back to the channel.

Layout:

- `src/` is the verified library (Verus):
  - `export/item.rs`: the item format, its parser and the law that a written item reads back;
  - `export/vote.rs`, `export/holder.rs`: votes, and holding them back until their item is
    persisted, with the laws that no vote is lost, duplicated, reordered or released early;
  - `export/mod.rs`: what happens to each message, reaction page and listing page;
  - `sql/`: the statements (as plans: statement text and parameters) of the bot's local
    database and of the exported database, with the tables they read and change named as
    collections (`bot.rs`, `export_calls.rs`) and the law that a read gives back what was
    written to the local database;
  - `server/`: request validation and routing, the subcommand handlers, errors and
    responses; `server/cleanup.rs` picks the stale exports that `/daas cleanup` deletes;
  - `register.rs`: the `/daas` command definition;
  - `text.rs`: whitespace, searching, decimal formatting.
- `app/` is the program around it: command line, HTTP server, Discord calls, the export tasks.
- `tests/` exercises the library on concrete values.
