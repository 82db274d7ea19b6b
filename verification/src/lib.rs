//! A bounded execution-history manager for a single-stepping Motoko
//! interpreter: load a program, advance it one visible change at a time,
//! rewind to earlier states, and read the retained timeline.

use vstd::prelude::*;

pub mod engine;
pub mod history;
pub mod numerals;

pub use history::clone_state;
pub use history::HistorySession;
pub use history::HistoryState;
pub use history::ParseError;
pub use history::StepOutcome;
pub use history::MICRO_STEP_BOUND;

verus! {

/// Default number of timeline entries retained before the oldest is evicted.
pub const MAX_HISTORY_LENGTH: usize = 50;

} // verus!
