//! A FIFO task queue with snapshot persistence, and a typed value store over
//! three interchangeable byte formats.
//!
//! - `queue`: a generic FIFO queue with amortised dequeue and lazy compaction
//! - `todo`, `app`: tasks, their snapshot bytes, and the service that keeps
//!   them in a queue
//! - `compatible`, `models`: the values every format can write, and the
//!   record they are compared on
//! - `serializer`, `formats`, `storage`: the byte formats and the typed store
//! - `error`: why a store failed
//! - `ui`: what keys do in the interactive front end
pub mod app;
pub mod compatible;
pub mod error;
pub mod formats;
pub mod models;
pub mod queue;
pub mod serializer;
pub mod storage;
pub mod todo;
pub mod ui;

pub use app::{TodoApp, TodoError};
pub use compatible::{FormatKind, StorageCompatible};
pub use error::StorageError;
pub use formats::{Borsh, Json, Wincode};
pub use models::Person;
pub use queue::Queue;
pub use serializer::Serializer;
pub use storage::Storage;
pub use todo::Todo;
