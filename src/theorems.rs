//! Properties of the game that span several operations.
use vstd::prelude::*;

use crate::contract::{is_play, step};
use crate::execute::{deposit_succeeds, identity_ok, pays_min_deposit, unlock_succeeds};
use crate::msg::{Context, ExecuteMsg, MessageInfo, Transfer};
use crate::state::{Archid, State};

verus! {

/// The state and identity gate settings after `calls` were made in order,
/// each refused call leaving them as they were.
pub open spec fn run(s: State, a: Archid, calls: Seq<(Context, MessageInfo, ExecuteMsg)>) -> (
    State,
    Archid,
)
    decreases calls.len(),
{
    if calls.len() == 0 {
        (s, a)
    } else {
        let (s0, a0) = run(s, a, calls.drop_last());
        let c = calls.last();
        match step(s0, a0, c.0, c.1, c.2) {
            Some((s1, a1, _)) => (s1, a1),
            None => (s0, a0),
        }
    }
}

/// A call that, when accepted, ends the round.
pub open spec fn ends_round(msg: ExecuteMsg) -> bool {
    msg is Claim || msg is UnlockStale
}

/// How many of `calls` were an accepted Claim or UnlockStale.
pub open spec fn rounds_ended(s: State, a: Archid, calls: Seq<(Context, MessageInfo, ExecuteMsg)>) -> nat
    decreases calls.len(),
{
    if calls.len() == 0 {
        0
    } else {
        let (s0, a0) = run(s, a, calls.drop_last());
        let c = calls.last();
        rounds_ended(s, a, calls.drop_last()) + if ends_round(c.2) && step(
            s0,
            a0,
            c.0,
            c.1,
            c.2,
        ) is Some {
            1nat
        } else {
            0nat
        }
    }
}

/// An accepted Claim or UnlockStale adds exactly one to the round; every
/// other accepted operation keeps it.
pub proof fn round_step(s: State, a: Archid, ctx: Context, info: MessageInfo, msg: ExecuteMsg)
    requires
        step(s, a, ctx, info, msg) is Some,
    ensures
        step(s, a, ctx, info, msg)->Some_0.0.round == s.round + if ends_round(msg) {
            1int
        } else {
            0int
        },
{
}

/// Over any sequence of calls, the round grows by exactly the number of
/// accepted Claim and UnlockStale calls.
pub proof fn round_counts_ended_rounds(
    s: State,
    a: Archid,
    calls: Seq<(Context, MessageInfo, ExecuteMsg)>,
)
    ensures
        run(s, a, calls).0.round == s.round + rounds_ended(s, a, calls),
    decreases calls.len(),
{
    if calls.len() > 0 {
        round_counts_ended_rounds(s, a, calls.drop_last());
        let (s0, a0) = run(s, a, calls.drop_last());
        let c = calls.last();
        if step(s0, a0, c.0, c.1, c.2) is Some {
            round_step(s0, a0, c.0, c.1, c.2);
        }
    }
}

/// The round never decreases: it is no smaller after a longer prefix of the
/// same calls.
pub proof fn round_never_decreases(
    s: State,
    a: Archid,
    calls: Seq<(Context, MessageInfo, ExecuteMsg)>,
    i: int,
    j: int,
)
    requires
        0 <= i <= j <= calls.len(),
    ensures
        run(s, a, calls.take(i)).0.round <= run(s, a, calls.take(j)).0.round,
    decreases j - i,
{
    if i < j {
        round_never_decreases(s, a, calls, i, j - 1);
        let prefix = calls.take(j);
        assert(prefix.drop_last() =~= calls.take(j - 1));
        let (s0, a0) = run(s, a, calls.take(j - 1));
        let c = prefix.last();
        if step(s0, a0, c.0, c.1, c.2) is Some {
            round_step(s0, a0, c.0, c.1, c.2);
        }
    }
}

/// Balances of the game's currency after the ledger performed `transfers`
/// out of the account `from`.
pub open spec fn settle(balances: Map<Seq<char>, int>, from: Seq<char>, transfers: Seq<Transfer>) -> Map<
    Seq<char>,
    int,
>
    decreases transfers.len(),
{
    if transfers.len() == 0 {
        balances
    } else {
        let b = settle(balances, from, transfers.drop_last());
        let t = transfers.last();
        let debited = b.insert(from, b[from] - t.amount);
        debited.insert(t.to_address@, debited[t.to_address@] + t.amount)
    }
}

/// After an accepted Claim the game's account `game`, which held the pool
/// `ctx.balance`, is empty, and the claimant received exactly that pool.
pub proof fn claim_pays_out_whole_pool(
    s: State,
    a: Archid,
    ctx: Context,
    info: MessageInfo,
    game: Seq<char>,
    balances: Map<Seq<char>, int>,
)
    requires
        step(s, a, ctx, info, ExecuteMsg::Claim {  }) is Some,
        balances.contains_key(game),
        balances.contains_key(info.sender@),
        balances[game] == ctx.balance,
        info.sender@ != game,
    ensures
        ({
            let after = settle(balances, game, step(s, a, ctx, info, ExecuteMsg::Claim {  })->Some_0.2);
            &&& after[game] == 0
            &&& after[info.sender@] == balances[info.sender@] + balances[game]
        }),
{
    let transfers = step(s, a, ctx, info, ExecuteMsg::Claim {  })->Some_0.2;
    assert(transfers.drop_last() =~= Seq::<Transfer>::empty());
    assert(settle(balances, game, transfers.drop_last()) == balances);
    let t = transfers.last();
    assert(t.to_address@ == info.sender@ && t.amount == ctx.balance);
}

/// An accepted UnlockStale moves no funds, so the pool carries over, and the
/// caller becomes the round's first depositor.
pub proof fn unlock_keeps_pool(
    s: State,
    a: Archid,
    ctx: Context,
    info: MessageInfo,
    game: Seq<char>,
    balances: Map<Seq<char>, int>,
)
    requires
        step(s, a, ctx, info, ExecuteMsg::UnlockStale {  }) is Some,
    ensures
        ({
            let (s1, _, transfers) = step(s, a, ctx, info, ExecuteMsg::UnlockStale {  })->Some_0;
            &&& settle(balances, game, transfers) == balances
            &&& s1.last_depositor == info.sender
            &&& s1.round == s.round + 1
        }),
{
}

/// Two accepted deposits in a row push the deadline by twice the extension.
pub proof fn two_deposits_extend_twice(
    s: State,
    a: Archid,
    first: Context,
    first_info: MessageInfo,
    second: Context,
    second_info: MessageInfo,
)
    requires
        step(s, a, first, first_info, ExecuteMsg::Deposit {  }) is Some,
        ({
            let (s1, a1, _) = step(s, a, first, first_info, ExecuteMsg::Deposit {  })->Some_0;
            step(s1, a1, second, second_info, ExecuteMsg::Deposit {  }) is Some
        }),
    ensures
        ({
            let (s1, a1, _) = step(s, a, first, first_info, ExecuteMsg::Deposit {  })->Some_0;
            let (s2, _, _) = step(s1, a1, second, second_info, ExecuteMsg::Deposit {  })->Some_0;
            s2.expiration == s.expiration + 2 * s.extensions
        }),
{
}

/// A deposit that meets every other condition is accepted one second before
/// the deadline and refused, as the round being over, at the deadline.
pub proof fn deposit_deadline(s: State, info: MessageInfo, owned_names: Option<Vec<String>>)
    requires
        s.paused is None,
        s.expiration > 0,
        identity_ok(owned_names),
        pays_min_deposit(s, info.funds@),
        s.expiration + s.extensions <= u64::MAX,
    ensures
        deposit_succeeds(s, (s.expiration - 1) as u64, info, owned_names),
        !deposit_succeeds(s, s.expiration, info, owned_names),
        s.expired_at(s.expiration),
{
}

/// An unlock is refused, as not stale yet, one second before the grace
/// period ends, and accepted when it ends.
pub proof fn stale_deadline(s: State)
    requires
        s.paused is None,
        s.stale > 0,
        s.expiration + s.stale <= u64::MAX,
        s.can_reset((s.expiration + s.stale) as u64),
    ensures
        s.expired_at((s.expiration + s.stale - 1) as u64),
        !s.stale_at((s.expiration + s.stale - 1) as u64),
        !unlock_succeeds(s, (s.expiration + s.stale - 1) as u64),
        unlock_succeeds(s, (s.expiration + s.stale) as u64),
{
}

/// While paused, every Deposit, Claim and UnlockStale is refused; a pause
/// begun at `p` and ended at `u` moves the deadline forward by `u - p`.
pub proof fn pause_freezes_clock(
    s: State,
    a: Archid,
    at_pause: Context,
    pause_info: MessageInfo,
    at_unpause: Context,
    unpause_info: MessageInfo,
)
    requires
        step(s, a, at_pause, pause_info, ExecuteMsg::Pause {  }) is Some,
        ({
            let (s1, a1, _) = step(s, a, at_pause, pause_info, ExecuteMsg::Pause {  })->Some_0;
            step(s1, a1, at_unpause, unpause_info, ExecuteMsg::Unpause {  }) is Some
        }),
    ensures
        ({
            let (s1, a1, _) = step(s, a, at_pause, pause_info, ExecuteMsg::Pause {  })->Some_0;
            let (s2, _, _) = step(s1, a1, at_unpause, unpause_info, ExecuteMsg::Unpause {  })->Some_0;
            &&& forall|ctx: Context, info: MessageInfo, msg: ExecuteMsg|
                is_play(msg) ==> #[trigger] step(s1, a1, ctx, info, msg) is None
            &&& s2.expiration == s.expiration + (at_unpause.now - at_pause.now)
            &&& s2.paused is None
        }),
{
}

} // verus!
