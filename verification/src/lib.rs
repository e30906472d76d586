//! Generates the C++ sources of a strongly typed wrapper over a native API.
//!
//! An interface is declared once, as a sequence of calls on a [`Builder`]:
//! tagged types, constants, fields of records, functions. Three emitters
//! take the same calls and render three artifacts that belong together: the
//! header with the typed declarations ([`HeaderBuilder`]), the storage with
//! one slot for the entry point of each function ([`VarsBuilder`]), and the
//! reset routine that clears every slot ([`ClearBuilder`]).
//!
//! Every emitter says in its contract what text each declaration adds.
//! [`laws`] and [`header_balance`] hold what follows for the artifacts as a
//! whole.

pub mod balance;
pub mod builder;
pub mod cuda;
pub mod cuda_balance;
pub mod header;
pub mod header_balance;
pub mod id_range;
pub mod laws;
pub mod reset;
pub mod storage;
pub mod text;
pub mod types;

pub use crate::builder::Builder;
pub use crate::header::HeaderBuilder;
pub use crate::reset::ClearBuilder;
pub use crate::storage::VarsBuilder;
pub use crate::types::{RecordType, TaggedType, Type};
