use vstd::prelude::*;

verus! {

/// An amount of one native currency.
#[derive(Clone, Debug, PartialEq, Eq)]
pub struct Coin {
    pub denom: String,
    pub amount: u128,
}

/// The single persisted record of a game.
#[derive(Clone, Debug, PartialEq, Eq)]
pub struct State {
    /// May pause, unpause and reconfigure the game.
    pub owner: String,
    /// Instant (seconds) after which the round is over unless a deposit arrives.
    pub expiration: u64,
    /// Smallest accepted payment, in the game's currency.
    pub min_deposit: u128,
    /// Time of the most recent accepted deposit (or of the last reset).
    pub last_deposit: u64,
    /// The only party that may claim once the round is over.
    pub last_depositor: String,
    /// Seconds added to `expiration` by each accepted deposit.
    pub extensions: u64,
    /// Grace period after `expiration` reserved to the last depositor.
    pub stale: u64,
    /// Length of the next round's timer when a round ends.
    pub reset_length: u64,
    /// Round number, starting at 1.
    pub round: u64,
    /// The time pausing began, while an owner-initiated pause is in effect.
    pub paused: Option<u64>,
}

/// Where the identity gate looks up registered names, when one is configured.
#[derive(Clone, Debug, PartialEq, Eq)]
pub struct Archid {
    pub registry: Option<String>,
    pub cw721: Option<String>,
}

impl State {
    /// The round is over at `now`.
    pub open spec fn expired_at(self, now: u64) -> bool {
        now >= self.expiration
    }

    /// The grace period after the round's end has elapsed at `now`.
    pub open spec fn stale_at(self, now: u64) -> bool {
        now >= self.expiration + self.stale
    }

    /// The state that starts a new round at `now`, won or unlocked by `caller`.
    pub open spec fn after_reset(self, now: u64, caller: String) -> State {
        State {
            expiration: (now + self.reset_length) as u64,
            last_deposit: now,
            last_depositor: caller,
            round: (self.round + 1) as u64,
            paused: None,
            ..self
        }
    }

    /// A new round can be started at `now` without leaving the range of `u64`.
    pub open spec fn can_reset(self, now: u64) -> bool {
        now + self.reset_length <= u64::MAX && self.round + 1 <= u64::MAX
    }

    pub fn is_expired(&self, now: u64) -> (r: bool)
        ensures
            r == self.expired_at(now),
    {
        now >= self.expiration
    }

    pub fn is_stale(&self, now: u64) -> (r: bool)
        ensures
            r == self.stale_at(now),
    {
        now >= self.expiration && now - self.expiration >= self.stale
    }

    pub fn is_paused(&self) -> (r: bool)
        ensures
            r == self.paused is Some,
    {
        self.paused.is_some()
    }

    /// Starts a new round at `now` with `caller` as its first depositor.
    pub fn reset(&mut self, now: u64, caller: &String)
        requires
            old(self).can_reset(now),
        ensures
            *final(self) == old(self).after_reset(now, *caller),
    {
        self.expiration = now + self.reset_length;
        self.last_deposit = now;
        self.last_depositor = caller.clone();
        self.round = self.round + 1;
        self.paused = None;
    }
}

} // verus!
