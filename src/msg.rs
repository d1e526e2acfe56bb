use vstd::prelude::*;

use crate::state::Coin;

verus! {

/// Parameters of a new game; `expiration` is counted from the creation time.
#[derive(Clone, Debug, PartialEq, Eq)]
pub struct InstantiateMsg {
    pub archid_registry: Option<String>,
    pub expiration: u64,
    pub min_deposit: u128,
    pub extensions: u64,
    pub stale: u64,
    pub reset_length: u64,
}

#[derive(Clone, Debug, PartialEq, Eq)]
pub enum ExecuteMsg {
    Deposit {},
    Claim {},
    UnlockStale {},
    // Admin only
    Pause {},
    Unpause {},
    Configure { msg: ConfigureMsg },
}

#[derive(Clone, Copy, Debug, PartialEq, Eq)]
pub struct MigrateMsg {}

#[derive(Clone, Copy, Debug, PartialEq, Eq)]
pub enum QueryMsg {
    Game {},
}

/// A partial update of the game's parameters: absent fields are kept.
#[derive(Clone, Debug, PartialEq, Eq)]
pub struct ConfigureMsg {
    pub owner: Option<String>,
    pub archid_registry: Option<String>,
    pub expiration: Option<u64>,
    pub min_deposit: Option<u128>,
    pub extensions: Option<u64>,
    pub stale: Option<u64>,
    pub reset_length: Option<u64>,
}

/// Who invoked an operation, and what payment came with it.
#[derive(Clone, Debug, PartialEq, Eq)]
pub struct MessageInfo {
    pub sender: String,
    pub funds: Vec<Coin>,
}

/// What the host observed when the operation was invoked.
#[derive(Clone, Debug, PartialEq, Eq)]
pub struct Context {
    /// Current time, in seconds.
    pub now: u64,
    /// The pool currently custodied by the game, in the game's currency.
    pub balance: u128,
    /// The names that the identity registry resolves for the caller, when a
    /// registry is configured; `None` when deposits are not gated.
    pub owned_names: Option<Vec<String>>,
}

/// An instruction to the ledger: pay `amount` of the game's currency out of
/// the pool to `to_address`.
#[derive(Clone, Debug, PartialEq, Eq)]
pub struct Transfer {
    pub to_address: String,
    pub amount: u128,
}

/// The name and version stamped on a deployed game.
#[derive(Clone, Debug, PartialEq, Eq)]
pub struct ContractVersion {
    pub contract: String,
    pub version: String,
}

} // verus!
