//! A small document store: a TOML document is changed through type-checked
//! requests, each resolved into an action against the document in memory.
//! Durability comes from a write-ahead journal, mutual exclusion from file
//! locks taken in the order that the states of a transaction prescribe.
//!
//! - [`args`], [`types`], [`value`], [`record`]: a request, its declared
//!   type, the values it can be given, and how it is written down.
//! - [`tree`], [`path`]: the document as a tree of tables, and table paths.
//! - [`resolve`], [`apply`], [`eval`]: what a request comes to, the changes
//!   it can make, and both together.
//! - [`journal`], [`transaction`], [`db`]: the queue and the log of a
//!   transaction, its states, and the files it works on.
//! - [`cmd`]: command lines.
//! - [`toml`]: what is assumed of `toml_edit`.

pub mod apply;
pub mod args;
pub mod cmd;
pub mod db;
pub mod error;
pub mod eval;
pub mod journal;
pub mod path;
pub mod record;
pub mod resolve;
pub mod toml;
pub mod transaction;
pub mod tree;
pub mod types;
pub mod value;

pub use args::{Action, Request, TableAction, TableArgs};
pub use cmd::split_cmd;
pub use db::Database;
pub use error::Error;
pub use journal::{FileWrite, Journal, Report};
pub use toml::{ItemKind, Node, ValueKind};
pub use transaction::{File, Lock, Locking, Release, Step, Transaction};
pub use types::Types;
pub use value::{Import, KeyValueType};
