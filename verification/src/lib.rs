//! Typed, fallible extraction from the dynamic values of an embedded document
//! store, and the rules by which a small record store asks that engine and
//! reads its answers.
//!
//! The library performs no input or output. Each store operation comes in
//! two halves: one builds the query to hand to the engine, the other reads
//! what the engine answered.

use vstd::prelude::*;

pub mod convert;
pub mod error;
pub mod object;
pub mod store;
pub mod take;
pub mod thing;
pub mod value;

pub use crate::error::StoreError;
pub use crate::object::Object;
pub use crate::store::{Query, Reply, Store};
pub use crate::take::{XTake, XTakeImpl, XTakeVal};
pub use crate::value::{Array, Value};

verus! {

/// Marks a value as the source of a typed conversion: `W(value).try_into()`
/// converts a dynamic value to the target type that the context asks for.
pub struct W<T>(pub T);

} // verus!
