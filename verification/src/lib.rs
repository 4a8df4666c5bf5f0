//! A time-locked token staking ledger.
//!
//! Users deposit funds for one of three lock durations, accrue a reward of
//! 0.4 % of the principal per whole day, or a lump-sum bonus when their first
//! claim comes at or after maturity, and may withdraw the principal once every
//! reward has been claimed.
//!
//! The crate holds the decisions only. The caller reads the clock, keeps the
//! records and moves the funds: every operation takes the current time and the
//! records it works on, and hands back the record to store together with the
//! single transfer to issue.

pub mod engine;
pub mod error;
pub mod identity;
pub mod laws;
pub mod ledger;
pub mod record;
pub mod reward;
pub mod state;
pub mod tier;

pub use crate::engine::claim;
pub use crate::engine::stake;
pub use crate::engine::withdraw;
pub use crate::error::VIOPStakingError;
pub use crate::identity::Identity;
pub use crate::ledger::Authority;
pub use crate::ledger::Holder;
pub use crate::ledger::Staged;
pub use crate::ledger::Transfer;
pub use crate::ledger::TransferOutcome;
pub use crate::record::StakeInfo;
pub use crate::state::initialize;
pub use crate::state::pause;
pub use crate::state::un_pause;
pub use crate::state::State;
pub use crate::tier::StakeTime;
