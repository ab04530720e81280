//! Compile-time scaffolding generator for exposing owned values as opaque
//! handles across a C ABI boundary.
//!
//! An annotated handle type `iox2_<name>_t` is paired with a sibling storage
//! type `iox2_<name>_storage_t`: a fixed-size, fixed-alignment byte region
//! declared in a public header. The generator checks, at build time, that the
//! annotated definition has a C-compatible layout and obeys the naming
//! convention, that the storage region is large and aligned enough to hold an
//! optional instance of the wrapped value type, and it derives the lifecycle
//! operations (initialize, take, set, allocate, deallocate) that move a value
//! through the storage slot.

pub mod error;
pub mod generator;
pub mod layout;
pub mod naming;
pub mod slot;
pub mod text;
