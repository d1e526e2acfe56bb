use vstd::prelude::*;

use crate::contract::DENOM;
use crate::error::ContractError;
use crate::msg::{ConfigureMsg, MessageInfo, Transfer};
use crate::state::{Archid, Coin, State};

verus! {

/// Some coin of `sent` is of `denom` and holds at least `amount`.
pub open spec fn sent_covers(sent: Seq<Coin>, denom: Seq<char>, amount: u128) -> bool {
    exists|i: int| 0 <= i < sent.len() && #[trigger] sent[i].denom@ == denom && sent[i].amount >= amount
}

/// `sent` pays what `required` asks for (nothing is asked for a zero amount).
pub open spec fn payment_satisfied(sent: Seq<Coin>, required: Option<Coin>) -> bool {
    match required {
        None => true,
        Some(c) => c.amount == 0 || sent_covers(sent, c.denom@, c.amount),
    }
}

/// `funds` pays the game's minimum deposit.
pub open spec fn pays_min_deposit(s: State, funds: Seq<Coin>) -> bool {
    s.min_deposit == 0 || sent_covers(funds, DENOM@, s.min_deposit)
}

/// The identity gate lets the caller through: there is none, or the caller
/// holds at least one registered name.
pub open spec fn identity_ok(owned_names: Option<Vec<String>>) -> bool {
    match owned_names {
        None => true,
        Some(names) => names@.len() > 0,
    }
}

/// `e` reports a payment short of `amount` of the game's currency.
pub open spec fn is_shortfall(e: ContractError, amount: u128) -> bool {
    match e {
        ContractError::InsufficientFunds { required: Some(c) } => c.denom@ == DENOM@ && c.amount
            == amount,
        _ => false,
    }
}

/// A deposit by `info.sender` at `now` is accepted.
pub open spec fn deposit_succeeds(
    s: State,
    now: u64,
    info: MessageInfo,
    owned_names: Option<Vec<String>>,
) -> bool {
    &&& s.paused is None
    &&& !s.expired_at(now)
    &&& identity_ok(owned_names)
    &&& pays_min_deposit(s, info.funds@)
    &&& s.expiration + s.extensions <= u64::MAX
}

/// The state after `depositor` made an accepted deposit at `now`.
pub open spec fn after_deposit(s: State, now: u64, depositor: String) -> State {
    State {
        expiration: (s.expiration + s.extensions) as u64,
        last_deposit: now,
        last_depositor: depositor,
        ..s
    }
}

/// Checks that `sent` holds the `required` coin, in at least its amount.
pub fn check_sent_required_payment(sent: &[Coin], required: Option<Coin>) -> (r: Result<
    (),
    ContractError,
>)
    ensures
        r is Ok <==> payment_satisfied(sent@, required),
        r is Err ==> r == Err::<(), ContractError>(ContractError::InsufficientFunds { required }),
{
    let sufficient = match &required {
        None => true,
        Some(c) => {
            if c.amount == 0 {
                true
            } else {
                let mut found = false;
                let mut i: usize = 0;
                while i < sent.len()
                    invariant
                        i <= sent@.len(),
                        found <==> exists|j: int|
                            0 <= j < i && #[trigger] sent@[j].denom@ == c.denom@ && sent@[j].amount
                                >= c.amount,
                    decreases sent@.len() - i,
                {
                    let hit = sent[i].denom == c.denom && sent[i].amount >= c.amount;
                    assert(hit <==> sent@[i as int].denom@ == c.denom@ && sent@[i as int].amount
                        >= c.amount);
                    found = found || hit;
                    i = i + 1;
                }
                found
            }
        },
    };
    if sufficient {
        Ok(())
    } else {
        Err(ContractError::InsufficientFunds { required })
    }
}

/// Accepts a deposit from `info.sender` while the round runs, pushing the
/// deadline by `extensions`. `owned_names` holds the caller's registered names
/// where deposits are gated by the identity registry, and is `None` otherwise.
pub fn execute_deposit(
    state: &mut State,
    now: u64,
    info: &MessageInfo,
    owned_names: &Option<Vec<String>>,
) -> (r: Result<(), ContractError>)
    ensures
        r is Ok <==> deposit_succeeds(*old(state), now, *info, *owned_names),
        r is Ok ==> *final(state) == after_deposit(*old(state), now, info.sender),
        r is Err ==> *final(state) == *old(state),
        old(state).paused is Some ==> r == Err::<(), ContractError>(ContractError::Paused {}),
        old(state).paused is None && old(state).expired_at(now) ==> r == Err::<(), ContractError>(
            ContractError::Gameover {},
        ),
        old(state).paused is None && !old(state).expired_at(now) && !identity_ok(*owned_names)
            ==> r == Err::<(), ContractError>(ContractError::IdentityRequired {}),
        old(state).paused is None && !old(state).expired_at(now) && identity_ok(*owned_names)
            && !pays_min_deposit(*old(state), info.funds@) ==> r is Err && is_shortfall(
            r->Err_0,
            old(state).min_deposit,
        ),
        old(state).paused is None && !old(state).expired_at(now) && identity_ok(*owned_names)
            && pays_min_deposit(*old(state), info.funds@) && old(state).expiration
            + old(state).extensions > u64::MAX ==> r == Err::<(), ContractError>(
            ContractError::Overflow {},
        ),
{
    // Game play must not be paused for upgrades
    if state.is_paused() {
        return Err(ContractError::Paused {});
    }
    // Game must be active
    if state.is_expired(now) {
        return Err(ContractError::Gameover {});
    }
    // Sender must hold a name, where deposits are gated
    if let Some(names) = owned_names {
        if names.len() == 0 {
            return Err(ContractError::IdentityRequired {});
        }
    }
    // Sender must have sent correct funds
    let required_payment = Coin { denom: String::from_str(DENOM), amount: state.min_deposit };
    let paid = check_sent_required_payment(info.funds.as_slice(), Some(required_payment));
    if let Err(e) = paid {
        return Err(e);
    }
    if state.expiration > u64::MAX - state.extensions {
        return Err(ContractError::Overflow {});
    }
    state.expiration = state.expiration + state.extensions;
    state.last_deposit = now;
    state.last_depositor = info.sender.clone();
    Ok(())
}

/// `caller` may claim the pool at `now`.
pub open spec fn claim_succeeds(s: State, now: u64, caller: String) -> bool {
    &&& s.paused is None
    &&& s.expired_at(now)
    &&& caller@ == s.last_depositor@
    &&& s.can_reset(now)
}

/// Anyone may start a new round at `now`, keeping the pool.
pub open spec fn unlock_succeeds(s: State, now: u64) -> bool {
    &&& s.paused is None
    &&& s.stale_at(now)
    &&& s.can_reset(now)
}

/// The state while the owner's pause, begun at `now`, is in effect.
pub open spec fn after_pause(s: State, now: u64) -> State {
    State { paused: Some(now), ..s }
}

/// `caller` may end the pause at `now`.
pub open spec fn unpause_succeeds(s: State, now: u64, caller: String) -> bool {
    &&& s.paused is Some
    &&& caller@ == s.owner@
    &&& now >= s.paused->Some_0
    &&& s.expiration + (now - s.paused->Some_0) <= u64::MAX
}

/// The state after a pause begun at `paused_at` ends at `now`: the deadline
/// moves forward by exactly the time spent paused.
pub open spec fn after_unpause(s: State, now: u64) -> State {
    State {
        expiration: (s.expiration + (now - s.paused->Some_0)) as u64,
        paused: None,
        ..s
    }
}

/// `m` changes at least one parameter.
pub open spec fn changes_something(m: ConfigureMsg) -> bool {
    m.owner is Some || m.archid_registry is Some || m.expiration is Some || m.min_deposit is Some
        || m.extensions is Some || m.stale is Some || m.reset_length is Some
}

/// `new` where present, else `old`.
pub open spec fn patched<T>(old: T, new: Option<T>) -> T {
    match new {
        Some(v) => v,
        None => old,
    }
}

/// The game's parameters with each field present in `m` overwritten.
pub open spec fn configured(s: State, m: ConfigureMsg) -> State {
    State {
        owner: patched(s.owner, m.owner),
        expiration: patched(s.expiration, m.expiration),
        min_deposit: patched(s.min_deposit, m.min_deposit),
        extensions: patched(s.extensions, m.extensions),
        stale: patched(s.stale, m.stale),
        reset_length: patched(s.reset_length, m.reset_length),
        ..s
    }
}

/// The identity gate's settings, with the registry replaced where `m` names one.
pub open spec fn configured_archid(a: Archid, m: ConfigureMsg) -> Archid {
    match m.archid_registry {
        Some(r) => Archid { registry: Some(r), ..a },
        None => a,
    }
}

/// Pays the whole pool, `balance`, to the last depositor once the round is
/// over, and starts a new round.
pub fn execute_claim(state: &mut State, now: u64, info: &MessageInfo, balance: u128) -> (r: Result<
    Transfer,
    ContractError,
>)
    ensures
        r is Ok <==> claim_succeeds(*old(state), now, info.sender),
        r is Ok ==> *final(state) == old(state).after_reset(now, info.sender),
        r is Ok ==> r->Ok_0 == (Transfer { to_address: info.sender, amount: balance }),
        r is Err ==> *final(state) == *old(state),
        old(state).paused is Some ==> r == Err::<Transfer, ContractError>(ContractError::Paused {}),
        old(state).paused is None && !old(state).expired_at(now) ==> r == Err::<
            Transfer,
            ContractError,
        >(ContractError::NotYetOver {}),
        old(state).paused is None && old(state).expired_at(now) && info.sender@
            != old(state).last_depositor@ ==> r == Err::<Transfer, ContractError>(
            ContractError::Unauthorized {},
        ),
        old(state).paused is None && old(state).expired_at(now) && info.sender@
            == old(state).last_depositor@ && !old(state).can_reset(now) ==> r == Err::<
            Transfer,
            ContractError,
        >(ContractError::Overflow {}),
{
    // Game play must not be paused
    if state.is_paused() {
        return Err(ContractError::Paused {});
    }
    // Game must be ended
    if !state.is_expired(now) {
        return Err(ContractError::NotYetOver {});
    }
    // Caller must be winner
    if info.sender != state.last_depositor {
        return Err(ContractError::Unauthorized {});
    }
    if now > u64::MAX - state.reset_length || state.round == u64::MAX {
        return Err(ContractError::Overflow {});
    }
    // Transfer the whole pool, then reset the game
    let transfer = Transfer { to_address: info.sender.clone(), amount: balance };
    state.reset(now, &info.sender);
    Ok(transfer)
}

/// Starts a new round once the winner let the grace period pass, keeping the
/// pool for the next round.
pub fn execute_unlock_stale(state: &mut State, now: u64, info: &MessageInfo) -> (r: Result<
    (),
    ContractError,
>)
    ensures
        r is Ok <==> unlock_succeeds(*old(state), now),
        r is Ok ==> *final(state) == old(state).after_reset(now, info.sender),
        r is Err ==> *final(state) == *old(state),
        old(state).paused is Some ==> r == Err::<(), ContractError>(ContractError::Paused {}),
        old(state).paused is None && !old(state).expired_at(now) ==> r == Err::<(), ContractError>(
            ContractError::NotYetOver {},
        ),
        old(state).paused is None && old(state).expired_at(now) && !old(state).stale_at(now)
            ==> r == Err::<(), ContractError>(ContractError::NotStale {}),
        old(state).paused is None && old(state).stale_at(now) && !old(state).can_reset(now)
            ==> r == Err::<(), ContractError>(ContractError::Overflow {}),
{
    // Game must not be paused for upgrades
    if state.is_paused() {
        return Err(ContractError::Paused {});
    }
    // Game must be ended
    if !state.is_expired(now) {
        return Err(ContractError::NotYetOver {});
    }
    // Game must be stale
    if !state.is_stale(now) {
        return Err(ContractError::NotStale {});
    }
    if now > u64::MAX - state.reset_length || state.round == u64::MAX {
        return Err(ContractError::Overflow {});
    }
    // Reset game, retaining the current prize pool
    state.reset(now, &info.sender);
    Ok(())
}

/// Pauses play (owner only).
pub fn execute_pause(state: &mut State, now: u64, info: &MessageInfo) -> (r: Result<
    (),
    ContractError,
>)
    ensures
        r is Ok <==> old(state).paused is None && info.sender@ == old(state).owner@,
        r is Ok ==> *final(state) == after_pause(*old(state), now),
        r is Err ==> *final(state) == *old(state),
        old(state).paused is Some ==> r == Err::<(), ContractError>(ContractError::Paused {}),
        old(state).paused is None && info.sender@ != old(state).owner@ ==> r == Err::<
            (),
            ContractError,
        >(ContractError::Unauthorized {}),
{
    // Must not be paused already
    if state.is_paused() {
        return Err(ContractError::Paused {});
    }
    // Only admin can pause
    if info.sender != state.owner {
        return Err(ContractError::Unauthorized {});
    }
    state.paused = Some(now);
    Ok(())
}

/// Resumes play (owner only); returns how long play was paused.
pub fn execute_unpause(state: &mut State, now: u64, info: &MessageInfo) -> (r: Result<
    u64,
    ContractError,
>)
    ensures
        r is Ok <==> unpause_succeeds(*old(state), now, info.sender),
        r is Ok ==> *final(state) == after_unpause(*old(state), now),
        r is Ok ==> r->Ok_0 == now - old(state).paused->Some_0,
        r is Err ==> *final(state) == *old(state),
        old(state).paused is None ==> r == Err::<u64, ContractError>(ContractError::InvalidInput {}),
        old(state).paused is Some && info.sender@ != old(state).owner@ ==> r == Err::<
            u64,
            ContractError,
        >(ContractError::Unauthorized {}),
        old(state).paused is Some && info.sender@ == old(state).owner@ && !unpause_succeeds(
            *old(state),
            now,
            info.sender,
        ) ==> r == Err::<u64, ContractError>(ContractError::Overflow {}),
{
    // Game must be paused
    let paused_at: u64 = match state.paused {
        None => {
            return Err(ContractError::InvalidInput {});
        },
        Some(t) => t,
    };
    // Only Admin can unpause game
    if info.sender != state.owner {
        return Err(ContractError::Unauthorized {});
    }
    if now < paused_at {
        return Err(ContractError::Overflow {});
    }
    let paused_duration: u64 = now - paused_at;
    if state.expiration > u64::MAX - paused_duration {
        return Err(ContractError::Overflow {});
    }
    state.expiration = state.expiration + paused_duration;
    state.paused = None;
    Ok(paused_duration)
}

/// Overwrites the parameters present in `msg` (owner only).
pub fn execute_configure(
    state: &mut State,
    archid: &mut Archid,
    info: &MessageInfo,
    msg: ConfigureMsg,
) -> (r: Result<(), ContractError>)
    ensures
        r is Ok <==> info.sender@ == old(state).owner@ && changes_something(msg),
        r is Ok ==> *final(state) == configured(*old(state), msg),
        r is Ok ==> *final(archid) == configured_archid(*old(archid), msg),
        r is Err ==> *final(state) == *old(state) && *final(archid) == *old(archid),
        info.sender@ != old(state).owner@ ==> r == Err::<(), ContractError>(
            ContractError::Unauthorized {},
        ),
        info.sender@ == old(state).owner@ && !changes_something(msg) ==> r == Err::<
            (),
            ContractError,
        >(ContractError::InvalidInput {}),
{
    // Only Admin can reconfigure the game
    if info.sender != state.owner {
        return Err(ContractError::Unauthorized {});
    }
    // Reconfiguration must change at least 1 value
    if msg.owner.is_none() && msg.archid_registry.is_none() && msg.expiration.is_none()
        && msg.min_deposit.is_none() && msg.extensions.is_none() && msg.stale.is_none()
        && msg.reset_length.is_none() {
        return Err(ContractError::InvalidInput {});
    }
    // Game settings
    if let Some(new_owner) = msg.owner {
        state.owner = new_owner;
    }
    if let Some(new_expiration) = msg.expiration {
        state.expiration = new_expiration;
    }
    if let Some(new_min_deposit) = msg.min_deposit {
        state.min_deposit = new_min_deposit;
    }
    if let Some(new_extensions) = msg.extensions {
        state.extensions = new_extensions;
    }
    if let Some(new_stale) = msg.stale {
        state.stale = new_stale;
    }
    if let Some(new_reset_length) = msg.reset_length {
        state.reset_length = new_reset_length;
    }
    // Identity gate settings
    if let Some(new_registry) = msg.archid_registry {
        archid.registry = Some(new_registry);
    }
    Ok(())
}

} // verus!
