//! Investor-account engine: percentage arithmetic, rank classification,
//! the per-investor ledger with its doubling investment cycle, and the
//! shared pools that take a fixed share of every deposit.
//!
//! Every operation is a total function of its arguments and the record it
//! is handed. A failing operation leaves the record exactly as it was.

pub mod amount;
pub mod error;
pub mod ledger;
pub mod policy;
pub mod pools;
pub mod rank;

pub use amount::{accrue, percentage};
pub use error::ErrorCode;
pub use ledger::{
    daily_bonus, daily_matching_bonus, direct_referral_commission, initialize, new_investment,
    update_rank, Investor,
};
pub use policy::{matching_rate, referral_rate};
pub use pools::{manage_pools, Pools};
pub use rank::{classify, from_label, Rank};
