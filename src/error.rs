use vstd::prelude::*;

use crate::state::Coin;

verus! {

/// Why an operation was refused. A refused operation changes nothing.
#[derive(Clone, Debug, PartialEq, Eq)]
pub enum ContractError {
    /// The caller lacks the required role (owner, or eligible depositor).
    Unauthorized {},
    /// A no-op or malformed administrative request.
    InvalidInput {},
    /// The payment does not hold the required coin.
    InsufficientFunds { required: Option<Coin> },
    /// Deposits are refused: the round is over until it is claimed or unlocked.
    Gameover {},
    /// The round is still running: nothing can be claimed or unlocked yet.
    NotYetOver {},
    /// The grace period reserved to the last depositor has not elapsed.
    NotStale {},
    /// Play is paused by the owner.
    Paused {},
    /// The depositor holds no registered name.
    IdentityRequired {},
    /// A time computed from the request lies outside the representable range.
    Overflow {},
}

} // verus!
