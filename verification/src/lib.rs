//! Job queues of the witness generator.
//!
//! The proof of an L1 batch is put together in four rounds, and the witness of each round is the
//! job of some worker. The jobs are rows of four database tables. This crate says which
//! statements each operation on the jobs sends to the database ([`dal`]) and what it makes of
//! the replies ([`replies`]). Statements are values ([`sql`], [`query`]) with an SQL text and a
//! meaning ([`meaning`]); [`laws`] holds what is proved of the operations by way of that meaning.

pub mod coords;
pub mod dal;
pub mod laws;
pub mod meaning;
pub mod query;
pub mod replies;
pub mod sql;
pub mod statements;
pub mod text;
pub mod types;
