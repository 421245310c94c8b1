//! Human-readable snapshots of memory-mapped registers.
//!
//! A register is described by its name, the names of its fields, the fields
//! themselves (where their bits lie) and a chain of decoders, one for each
//! field, that know the named values of the field. The three lists have one
//! length and share their positions. A [`RegisterDebugValue`] pairs a value
//! read from the register with that description, and renders it as
//! `Name { field: value, field: value }`: a field shows the name of its value
//! where the value has one, and the number where it has none.
//!
//! Register values are carried as `u64`, which holds a register of any
//! narrower width unchanged.

pub mod chain;
pub mod debug;
pub mod field;
pub mod info;
pub mod repr;
pub mod text;
pub mod transcript;
pub mod variants;

pub use chain::{FieldValueEnumCons, FieldValueEnumNil, FieldValueEnumSeq, FieldVisitor, Step};
pub use debug::RegisterDebugValue;
pub use field::Field;
pub use info::{RegisterDebugInfo, RegisterDescriptor};
pub use repr::FieldRepr;
pub use transcript::{record_walk, Transcript};
pub use variants::{FieldVariants, TryFromValue};
