//! A progress log: entries with an identifier, a text and a creation time, kept in one
//! table, listed, added and deleted through a small repository, and served over three routes.
//!
//! - [`entry`]: the log entry.
//! - [`error`]: the failures of a request, and how outside failures become one of them.
//! - [`statement`]: the statements that go to the storage engine.
//! - [`storage`]: the calls into the storage engine.
//! - [`repository`]: list, add and delete on a connection.
//! - [`response`]: the responses of the routes, as plain values.
//! - [`handlers`]: what each route does.
//! - [`table`], [`table_laws`]: the table as the repository counts on it to behave, and
//!   what holds of it whatever is done to it.

pub mod entry;
pub mod error;
pub mod handlers;
pub mod repository;
pub mod response;
pub mod statement;
pub mod storage;
pub mod table;
pub mod table_laws;
