//! The traits of the crate.

pub use crate::progress::WithProgress;
pub use crate::step_progress::WithStepProgress;
