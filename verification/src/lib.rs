//! A single-line terminal progress bar.
//!
//! The crate computes what a progress bar shows: the shape of the bar, the
//! layout of the line for a given display width, the throughput over a
//! sliding window and the projected remaining time.  Every function carries a
//! contract over a mathematical model of its data, and the text of a line is
//! handed back to the caller, who owns the output stream.

pub mod clock;
pub mod file_progress;
pub mod history;
pub mod iter_progress;
pub mod prelude;
pub mod progress;
pub mod step_progress;
pub mod text;
pub mod units;

pub use file_progress::FileProgress;
pub use iter_progress::IterProgress;
pub use progress::{BarPosition, Fraction, OutputStream, Progress, WithProgress};
pub use step_progress::{StepProgress, WithStepProgress};
