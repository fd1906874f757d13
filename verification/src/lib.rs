//! Selection of the next speaker from a roster of candidate names.
//!
//! The selector biases a random draw away from recently and frequently
//! chosen names: each past selection contributes an exponentially decayed
//! amount to a per-candidate history weight, the most recent entries of the
//! history are barred outright through a bounded recency window, and the
//! remaining candidates receive stochastic priorities that shrink as their
//! history weight grows.  The floating-point sampling itself lives with the
//! caller; this crate provides the verified structure of the algorithm:
//! window sizing, decay ages, occurrence and recency masks, the exclusion
//! decision, input filtering, and the final lookup of the drawn name.

pub mod error;
pub mod roster;
pub mod selection;
pub mod trim;

pub use error::ChooseError;
pub use error::TrimError;
pub use trim::maybe_trim_history;
pub use roster::from_lines;
pub use roster::ignore_non_candidates;
pub use roster::max_name_chars;
pub use roster::non_blanks_nor_comments;
pub use roster::tally_counts;
pub use selection::n_recent_for_history_and_participants;
pub use selection::occurrence_mask;
pub use selection::position_ages;
pub use selection::selected_name;
pub use selection::selection_plan;
pub use selection::SelectionPlan;
