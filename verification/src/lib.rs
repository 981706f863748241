//! A single-use state cell gated by one-time capability tokens.
//!
//! A cell is born holding a producer payload and can change hands at most
//! once into holding a result payload. Every transition is authorized by a
//! capability token that is consumed by the operation it permits, and every
//! token carries the brand of the one cell that minted it, so a token from
//! one cell is never accepted by another.
//!
//! [`dyn_once`] holds the cell, its tokens and the operations on them;
//! [`protocol`] holds the ghost transition system that the operation
//! contracts are phrased over, together with the proofs of the protocol's
//! laws.

pub mod dyn_once;
pub mod protocol;

pub use crate::dyn_once::DynOnce;
