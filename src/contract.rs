use vstd::prelude::*;

use crate::error::ContractError;
use crate::execute::{
    after_deposit, after_pause, after_unpause, changes_something, claim_succeeds, configured,
    configured_archid, deposit_succeeds, execute_claim, execute_configure, execute_deposit,
    execute_pause, execute_unlock_stale, execute_unpause, unlock_succeeds, unpause_succeeds,
};
use crate::msg::{Context, ContractVersion, ExecuteMsg, InstantiateMsg, MessageInfo, Transfer};
use crate::state::{Archid, State};

verus! {

/// The game's currency.
pub const DENOM: &'static str = "aconst";

/// The game created by `creator` at `now` from `msg`.
pub open spec fn instantiated(now: u64, creator: String, msg: InstantiateMsg) -> (State, Archid) {
    (
        State {
            owner: creator,
            expiration: (msg.expiration + now) as u64,
            min_deposit: msg.min_deposit,
            last_deposit: now,
            last_depositor: creator,
            extensions: msg.extensions,
            stale: msg.stale,
            reset_length: msg.reset_length,
            round: 1,
            paused: None,
        },
        Archid { registry: msg.archid_registry, cw721: None },
    )
}

/// The outcome of one operation: the new state, the new identity gate
/// settings and the transfers to perform, or `None` where it is refused.
pub open spec fn step(s: State, a: Archid, ctx: Context, info: MessageInfo, msg: ExecuteMsg) -> Option<
    (State, Archid, Seq<Transfer>),
> {
    let now = ctx.now;
    match msg {
        ExecuteMsg::Deposit {  } => if deposit_succeeds(s, now, info, ctx.owned_names) {
            Some((after_deposit(s, now, info.sender), a, Seq::empty()))
        } else {
            None
        },
        ExecuteMsg::Claim {  } => if claim_succeeds(s, now, info.sender) {
            Some(
                (
                    s.after_reset(now, info.sender),
                    a,
                    seq![Transfer { to_address: info.sender, amount: ctx.balance }],
                ),
            )
        } else {
            None
        },
        ExecuteMsg::UnlockStale {  } => if unlock_succeeds(s, now) {
            Some((s.after_reset(now, info.sender), a, Seq::empty()))
        } else {
            None
        },
        ExecuteMsg::Pause {  } => if s.paused is None && info.sender@ == s.owner@ {
            Some((after_pause(s, now), a, Seq::empty()))
        } else {
            None
        },
        ExecuteMsg::Unpause {  } => if unpause_succeeds(s, now, info.sender) {
            Some((after_unpause(s, now), a, Seq::empty()))
        } else {
            None
        },
        ExecuteMsg::Configure { msg: m } => if info.sender@ == s.owner@ && changes_something(m) {
            Some((configured(s, m), configured_archid(a, m), Seq::empty()))
        } else {
            None
        },
    }
}

/// `msg` is one of the operations of play, as opposed to administration.
pub open spec fn is_play(msg: ExecuteMsg) -> bool {
    msg is Deposit || msg is Claim || msg is UnlockStale
}

/// Creates the game: the creator owns it and is its first depositor, and the
/// first round ends `msg.expiration` seconds after `now`.
pub fn instantiate(now: u64, info: &MessageInfo, msg: InstantiateMsg) -> (r: Result<
    (State, Archid),
    ContractError,
>)
    ensures
        r is Ok <==> msg.expiration + now <= u64::MAX,
        r is Ok ==> r->Ok_0 == instantiated(now, info.sender, msg),
        r is Err ==> r == Err::<(State, Archid), ContractError>(ContractError::Overflow {}),
{
    if msg.expiration > u64::MAX - now {
        return Err(ContractError::Overflow {});
    }
    let state = State {
        owner: info.sender.clone(),
        expiration: msg.expiration + now,
        min_deposit: msg.min_deposit,
        last_deposit: now,
        last_depositor: info.sender.clone(),
        extensions: msg.extensions,
        stale: msg.stale,
        reset_length: msg.reset_length,
        round: 1,
        paused: None,
    };
    let archid = Archid { registry: msg.archid_registry, cw721: None };
    Ok((state, archid))
}

/// Routes one operation; returns the transfers that the ledger must perform.
pub fn execute(
    state: &mut State,
    archid: &mut Archid,
    ctx: &Context,
    info: &MessageInfo,
    msg: ExecuteMsg,
) -> (r: Result<Vec<Transfer>, ContractError>)
    ensures
        r is Ok <==> step(*old(state), *old(archid), *ctx, *info, msg) is Some,
        r is Ok ==> step(*old(state), *old(archid), *ctx, *info, msg) == Some(
            (*final(state), *final(archid), r->Ok_0@),
        ),
        r is Err ==> *final(state) == *old(state) && *final(archid) == *old(archid),
        old(state).paused is Some && is_play(msg) ==> r == Err::<Vec<Transfer>, ContractError>(
            ContractError::Paused {},
        ),
{
    let mut transfers: Vec<Transfer> = Vec::new();
    let done = match msg {
        ExecuteMsg::Deposit {  } => execute_deposit(state, ctx.now, info, &ctx.owned_names),
        ExecuteMsg::Claim {  } => match execute_claim(state, ctx.now, info, ctx.balance) {
            Ok(t) => {
                transfers.push(t);
                Ok(())
            },
            Err(e) => Err(e),
        },
        ExecuteMsg::UnlockStale {  } => execute_unlock_stale(state, ctx.now, info),
        ExecuteMsg::Pause {  } => execute_pause(state, ctx.now, info),
        ExecuteMsg::Unpause {  } => match execute_unpause(state, ctx.now, info) {
            Ok(_) => Ok(()),
            Err(e) => Err(e),
        },
        ExecuteMsg::Configure { msg: m } => execute_configure(state, archid, info, m),
    };
    match done {
        Ok(()) => Ok(transfers),
        Err(e) => Err(e),
    }
}

/// `a` comes strictly before `b` in lexicographic order of code points.
pub open spec fn chars_lt(a: Seq<char>, b: Seq<char>) -> bool
    decreases a.len(),
{
    if b.len() == 0 {
        false
    } else if a.len() == 0 {
        true
    } else if a[0] != b[0] {
        (a[0] as u32) < (b[0] as u32)
    } else {
        chars_lt(a.drop_first(), b.drop_first())
    }
}

/// Relies on `PartialOrd for String` (`<`): strings compare lexicographically
/// by their UTF-8 bytes, which orders them as their sequences of code points.
#[verifier::external_body]
fn string_lt(a: &String, b: &String) -> (r: bool)
    ensures
        r == chars_lt(a@, b@),
{
    a < b
}

/// Decides whether the game may be upgraded from the version `stored` on it
/// to `current`: play must be paused, the name must match, and the version
/// must increase.
pub fn migrate(state: &State, stored: &ContractVersion, current: &ContractVersion) -> (r: Result<
    (),
    ContractError,
>)
    ensures
        r is Ok <==> state.paused is Some && stored.contract@ == current.contract@ && chars_lt(
            stored.version@,
            current.version@,
        ),
        state.paused is None ==> r == Err::<(), ContractError>(ContractError::Unauthorized {}),
        state.paused is Some && !(stored.contract@ == current.contract@ && chars_lt(
            stored.version@,
            current.version@,
        )) ==> r == Err::<(), ContractError>(ContractError::InvalidInput {}),
{
    // Game play must be paused for upgrade
    if !state.is_paused() {
        return Err(ContractError::Unauthorized {});
    }
    if stored.contract != current.contract {
        return Err(ContractError::InvalidInput {});
    }
    if !string_lt(&stored.version, &current.version) {
        return Err(ContractError::InvalidInput {});
    }
    Ok(())
}

} // verus!
