//! Semantically enriched value mutation.
//!
//! Small mutators that overwrite a value in place and answer whether the
//! call changed it: [`PowerBool`] for boolean flags, [`Change`] for any value
//! that can be compared for equality.

pub mod change;
pub mod outcome;
pub mod power_bool;
pub mod truth_table;

pub use change::Change;
pub use outcome::Outcome;
pub use power_bool::PowerBool;
