//! A round-based "last depositor wins" prize-pool game.
//!
//! Every operation is a pure transition over the persisted [`state::State`]:
//! the host supplies the current time, the caller, the attached payment and
//! (where needed) the pool balance or the caller's registered names, and gets
//! back the new state together with the fund transfers to perform.

pub mod contract;
pub mod error;
pub mod execute;
pub mod msg;
pub mod state;
pub mod theorems;

pub use crate::error::ContractError;
