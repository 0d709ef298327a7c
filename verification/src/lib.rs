//! Locating six internal functions of a stripped binary from the answers of
//! a disassembly backend.
//!
//! The library never talks to the backend itself. A resolution is a small
//! state machine: a [`Radare`] hands out the next [`Query`] to perform,
//! takes the backend's [`Reply`], and ends with an address or a
//! [`ResolveError`]. Every decision on the way is a verified function of
//! the replies; the module `model` states the engine as a mathematical
//! function, and the module `laws` what follows from it.

pub mod config;
pub mod error;
pub mod heuristics;
pub mod laws;
pub mod model;
pub mod query;
pub mod radare;
pub mod records;
pub mod slots;
pub mod step;
pub mod tally;
pub mod text;

pub use config::{render_config, Addresses};
pub use error::{ErrorKind, ResolveError};
pub use query::Query;
pub use radare::Radare;
pub use records::{Annotation, Decompile, Import, Reference, Reply};
pub use slots::Slot;
pub use step::{Pending, Stage, Step};
