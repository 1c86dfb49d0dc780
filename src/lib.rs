//! A personal library catalog: book records, their storage in an embedded
//! SQLite store, and the orderings in which they are listed.

pub mod book;
pub mod codec;
pub mod database;
pub mod ordering;
pub mod store;
pub mod rows;
pub mod subcommands;
