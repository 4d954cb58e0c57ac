//! A cell that marks the places where an invariant is taken on trust.
//!
//! [`UnsafeStorage`] holds a value together with the understanding that the
//! value keeps some invariant which only its users know. The module
//! [`storage`] has the cell and the contracts of its operations; the module
//! [`laws`] has what those contracts imply when the operations are combined.

pub mod laws;
pub mod storage;

pub use storage::UnsafeStorage;
