//! A per-document vector store and a bibliographic search client, without
//! their input and output.
//!
//! The store keeps the chunks of each document, with their embedding
//! vectors, in a table of its own and answers nearest-neighbour queries.
//! Here it is a family of state machines (`store`) over a small protocol
//! (`protocol`): an operation asks for one action of the storage backend at
//! a time and is told the backend's answer.  `batch`, `schema`, `search` and
//! `naming` hold what the operations compute; `model`, `runs` and `laws` say
//! what the operations achieve against a backend that keeps its tables.
//!
//! The search client words requests (`arxiv`), reads the Atom feed that
//! answers them (`feed`, with `category` for display names) and decides what
//! an exchange amounts to (`fetch`).

pub mod text;
pub mod naming;
pub mod category;
pub mod arxiv;
pub mod feed;
pub mod fetch;
pub mod shell;
pub mod error;
pub mod batch;
pub mod schema;
pub mod search;
pub mod protocol;
pub mod store;
pub mod model;
pub mod runs;
pub mod laws;
