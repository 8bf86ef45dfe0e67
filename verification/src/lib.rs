//! An embeddable document store: an in-memory map from string keys to encoded
//! values, with a policy-driven, crash-safe path to a single snapshot file.
//!
//! The library performs no I/O and reads no clock. A call that changes the
//! map decides whether a snapshot is due and, if so, hands back a
//! [`FileOp`], one operation on the file system. The caller carries it out
//! and reports the outcome to [`DocDb::settle`], which asks for the next
//! operation, commits the change when none is left, or rolls the change back
//! when an operation failed.

pub mod db;
pub mod error;
pub mod guarantees;
pub mod iterator;
pub mod serialization;
pub mod staging;
pub mod table;

pub use db::{DocDb, DumpPolicy};
pub use error::{DocError, ErrorType};
pub use iterator::{DocDbIterator, DocDbIteratorItem};
pub use serialization::SerializationMethod;
pub use staging::FileOp;
