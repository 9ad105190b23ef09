//! A MySQL-backed store for server-side session records.
//!
//! The library decides what is sent to the database and what is made of the
//! answer; the connection pool itself is a type parameter of the store.

pub mod ident;
pub mod record;
pub mod codec;
pub mod statement;
pub mod store;
pub mod table;
pub mod migration;
