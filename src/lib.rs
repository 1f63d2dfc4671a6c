//! Unsigned integers of any width from 1 to 128 bits, with wraparound
//! arithmetic and checked conversions between widths.
//!
//! - `width`: the descriptor of a width: its storage word and all-ones mask.
//! - `table`: the storage word chosen for each supported width.
//! - `varuint`: the value type and its operators.
//! - `convert`: conversions to and from native integers and other widths.
//! - `laws`: laws that tie the operations together.

pub mod convert;
pub mod laws;
pub mod table;
pub mod varuint;
pub mod width;

pub use convert::UnsignedInteger;
pub use varuint::{Error, U48, VarUInt};
pub use width::{Intern, InternHelper, max_mask, storage_for};
