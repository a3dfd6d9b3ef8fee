//! Selection of the transaction that declares the greatest maximum fee per gas
//! among the transactions of a block.
//!
//! [`selection`] holds the rule itself, on plain fee values. [`block`] applies
//! it to the transaction collection of a block as a node delivers it.

pub mod block;
pub mod selection;

pub use block::{get_max_fee, handle_block};
pub use selection::{fee_is_below, select_max_fee, summarize, MaxFee, SelectionResult};
