//! Assertions for tests: closeness of numeric sequences and the variant of a result.
//!
//! The checks hand back a verdict instead of aborting, so that a caller decides
//! how a failed check ends its test.

pub mod closeness;
pub mod numeric;
pub mod outcome;

pub use closeness::{close, close_abs};
pub use numeric::Float;
pub use outcome::{error, success};
