use std::collections::HashMap;

use network_wars::contract::{execute, instantiate, DENOM};
use network_wars::msg::{Context, ExecuteMsg, InstantiateMsg, MessageInfo};
use network_wars::state::{Archid, Coin, State};
use network_wars::ContractError;

/// Block time of a freshly created test chain.
const GENESIS: u64 = 1_571_797_419;

/// A game together with a ledger of the game's currency, as a host would run it.
struct Chain {
    now: u64,
    state: State,
    archid: Archid,
    game: u128,
    balances: HashMap<String, u128>,
    names: HashMap<String, Vec<String>>,
}

fn coins(amount: u128) -> Vec<Coin> {
    vec![Coin { denom: DENOM.to_string(), amount }]
}

impl Chain {
    fn create(
        admin: &str,
        minted: &[(&str, u128)],
        msg: InstantiateMsg,
        seed: u128,
    ) -> Chain {
        let mut balances = HashMap::new();
        for (who, amount) in minted {
            balances.insert(who.to_string(), *amount);
        }
        let info = MessageInfo { sender: admin.to_string(), funds: coins(seed) };
        let (state, archid) = instantiate(GENESIS, &info, msg).unwrap();
        let mut chain = Chain {
            now: GENESIS,
            state,
            archid,
            game: 0,
            balances,
            names: HashMap::new(),
        };
        chain.pay(admin, seed);
        chain
    }

    fn pay(&mut self, from: &str, amount: u128) {
        let held = self.balances.entry(from.to_string()).or_insert(0);
        assert!(*held >= amount);
        *held -= amount;
        self.game += amount;
    }

    fn bank(&self, who: &str) -> u128 {
        *self.balances.get(who).unwrap_or(&0)
    }

    fn exec(&mut self, sender: &str, msg: ExecuteMsg, funds: u128) -> Result<(), ContractError> {
        let (game, balances) = (self.game, self.balances.clone());
        if funds > 0 {
            self.pay(sender, funds);
        }
        let owned_names = self
            .archid
            .registry
            .as_ref()
            .map(|_| self.names.get(sender).cloned().unwrap_or_default());
        let ctx = Context { now: self.now, balance: self.game, owned_names };
        let info = MessageInfo {
            sender: sender.to_string(),
            funds: if funds > 0 { coins(funds) } else { vec![] },
        };
        match execute(&mut self.state, &mut self.archid, &ctx, &info, msg) {
            Ok(transfers) => {
                for t in transfers {
                    self.game -= t.amount;
                    *self.balances.entry(t.to_address).or_insert(0) += t.amount;
                }
                Ok(())
            }
            Err(e) => {
                self.game = game;
                self.balances = balances;
                Err(e)
            }
        }
    }
}

fn settings(
    registry: Option<&str>,
    expiration: u64,
    min_deposit: u128,
    extensions: u64,
    stale: u64,
    reset_length: u64,
) -> InstantiateMsg {
    InstantiateMsg {
        archid_registry: registry.map(|r| r.to_string()),
        expiration,
        min_deposit,
        extensions,
        stale,
        reset_length,
    }
}

#[test]
fn can_instantiate() {
    let extends: u64 = 1000;
    let reset: u64 = extends * 5;
    let expires: u64 = GENESIS + extends;
    let msg = settings(None, expires, 1000000, extends, reset, reset);
    let info = MessageInfo {
        sender: "creator".to_string(),
        funds: vec![Coin { denom: "token".to_string(), amount: 1000 }],
    };
    let (state, archid) = instantiate(GENESIS, &info, msg).unwrap();
    assert_eq!("creator", state.owner);
    assert_eq!("creator", state.last_depositor);
    assert_eq!(state.expiration, GENESIS + expires);
    assert_eq!(state.round, 1);
    assert_eq!(state.paused, None);
    assert_eq!(archid.registry, None);
}

#[test]
fn test_enforce_archid() {
    let admin = "netwars_deployer";
    let depositor = "arch_owner";
    let registry = "archid_registry";
    let mut chain = Chain::create(
        admin,
        &[(admin, 100000000000000000000), (depositor, 100000000000000000000)],
        settings(Some(registry), 604800, 1000000000000000000, 3600, 604800, 604800),
        0,
    );
    // the registry charges its base cost of 5000 for a name
    let base_cost: u128 = 5000;

    // contract balance (prize) is currently 0
    assert_eq!(chain.game, 0);
    let initial_game_state = chain.state.clone();

    // depositing fails while the sender owns no name
    assert!(chain.exec(depositor, ExecuteMsg::Deposit {}, 1000000000000000000).is_err());

    // depositor registers a name
    *chain.balances.get_mut(depositor).unwrap() -= base_cost;
    chain.names.insert(depositor.to_string(), vec!["first_archid".to_string()]);

    // now depositor can make deposits
    chain.exec(depositor, ExecuteMsg::Deposit {}, 1000000000000000000).unwrap();
    assert_eq!(chain.state.expiration, initial_game_state.expiration + 3600);
    assert_eq!(chain.game, 1000000000000000000);
}

#[test]
fn test_claim() {
    let admin = "netwars_deployer";
    let first = "arch_owner";
    let second = "second_arch_owner";
    let mut chain = Chain::create(
        admin,
        &[
            (admin, 15000000000000000000),
            (first, 100000000000000000000),
            (second, 1000000000000000000),
        ],
        settings(None, 120, 1000000000000000000, 30, 604800, 604800),
        15000000000000000000,
    );
    chain.exec(first, ExecuteMsg::Deposit {}, 1000000000000000000).unwrap();
    chain.exec(second, ExecuteMsg::Deposit {}, 1000000000000000000).unwrap();

    chain.now += 1000;
    // depositing to an expired game fails
    assert!(chain.exec(first, ExecuteMsg::Deposit {}, 1000000000000000000).is_err());
    // losers can't claim prize
    assert!(chain.exec(first, ExecuteMsg::Claim {}, 0).is_err());
    // winner can claim prize
    chain.exec(second, ExecuteMsg::Claim {}, 0).unwrap();

    assert_eq!(chain.game, 0);
    assert_eq!(chain.bank(second), 17000000000000000000);
    assert_eq!(chain.state.round, 2);

    // depositing can resume
    chain.exec(first, ExecuteMsg::Deposit {}, 2000000000000000000).unwrap();
    assert_eq!(chain.game, 2000000000000000000);
}

#[test]
fn test_deposit() {
    let admin = "fomo_deployer";
    let depositor = "arch_owner";
    let mut chain = Chain::create(
        admin,
        &[(depositor, 100000000000000000000)],
        settings(None, 604800, 1000000000000000000, 3600, 0, 604800),
        0,
    );
    assert_eq!(chain.game, 0);

    // depositor must send at least the min_deposit amount
    assert!(chain.exec(depositor, ExecuteMsg::Deposit {}, 1000).is_err());

    // depositing a valid amount must increase the game timer
    let initial_game_state = chain.state.clone();
    chain.exec(depositor, ExecuteMsg::Deposit {}, 1000000000000000000).unwrap();
    assert_eq!(chain.state.expiration, initial_game_state.expiration + 3600);

    // prize pool must be increased
    assert_eq!(chain.game, 1000000000000000000);
}

#[test]
fn test_unlock_stale() {
    let admin = "netwars_deployer";
    let first = "arch_owner";
    let second = "second_arch_owner";
    let random = "complete_random";
    let mut chain = Chain::create(
        admin,
        &[
            (admin, 15000000000000000000),
            (first, 100000000000000000000),
            (second, 1000000000000000000),
            (random, 1000000000000000000),
        ],
        settings(None, 120, 1000000000000000000, 30, 600, 600),
        15000000000000000000,
    );
    chain.exec(first, ExecuteMsg::Deposit {}, 1000000000000000000).unwrap();
    chain.exec(second, ExecuteMsg::Deposit {}, 1000000000000000000).unwrap();

    // expired, but not yet stale
    chain.now += 300;
    assert!(chain.exec(first, ExecuteMsg::Deposit {}, 1000000000000000000).is_err());
    assert!(chain.exec(first, ExecuteMsg::UnlockStale {}, 0).is_err());

    // the winner does not claim: staleness begins
    chain.now += 500;
    assert!(chain.exec(random, ExecuteMsg::UnlockStale {}, 0).is_ok());

    // the prize pool carried over
    assert_eq!(chain.game, 17000000000000000000);
    assert_eq!(chain.state.round, 2);

    // play resumes with the previous round's prize
    chain.exec(first, ExecuteMsg::Deposit {}, 1000000000000000000).unwrap();
    chain.exec(random, ExecuteMsg::Deposit {}, 1000000000000000000).unwrap();
    chain.exec(first, ExecuteMsg::Deposit {}, 1000000000000000000).unwrap();

    let prize_balance = chain.game;
    let winner_preclaim_balance = chain.bank(first);

    chain.now += 1000;
    chain.exec(first, ExecuteMsg::Claim {}, 0).unwrap();
    assert_eq!(chain.game, 0);
    assert_eq!(chain.bank(first), prize_balance + winner_preclaim_balance);
    assert_eq!(chain.bank(first), 117000000000000000000);
    assert_eq!(chain.state.round, 3);
}

#[test]
fn claim_before_and_after_the_deadline() {
    let mut chain = Chain::create(
        "owner",
        &[("alice", 10)],
        settings(None, 120, 1, 30, 0, 604800),
        0,
    );
    chain.now = 0;
    chain.state.expiration = 120;
    chain.exec("alice", ExecuteMsg::Deposit {}, 1).unwrap();
    assert_eq!(chain.state.expiration, 150);

    chain.now = 100;
    assert_eq!(chain.exec("alice", ExecuteMsg::Claim {}, 0), Err(ContractError::NotYetOver {}));

    chain.now = 200;
    let round = chain.state.round;
    chain.exec("alice", ExecuteMsg::Claim {}, 0).unwrap();
    assert_eq!(chain.game, 0);
    assert_eq!(chain.bank("alice"), 10);
    assert_eq!(chain.state.expiration, 200 + 604800);
    assert_eq!(chain.state.round, round + 1);
    assert_eq!(chain.state.last_depositor, "alice");
    assert_eq!(chain.state.last_deposit, 200);
}

#[test]
fn stranger_cannot_claim() {
    let mut chain = Chain::create(
        "owner",
        &[("alice", 10), ("bob", 10)],
        settings(None, 120, 1, 30, 600, 600),
        0,
    );
    chain.exec("alice", ExecuteMsg::Deposit {}, 1).unwrap();
    chain.now += 1000;
    assert_eq!(chain.exec("bob", ExecuteMsg::Claim {}, 0), Err(ContractError::Unauthorized {}));
    assert_eq!(chain.game, 1);
    assert_eq!(chain.state.round, 1);
}

#[test]
fn unlock_keeps_pool_and_sets_caller() {
    let mut chain = Chain::create(
        "owner",
        &[("owner", 5), ("alice", 10), ("bob", 10)],
        settings(None, 120, 1, 30, 600, 600),
        5,
    );
    chain.exec("alice", ExecuteMsg::Deposit {}, 1).unwrap();
    chain.now += 150 + 600;
    chain.exec("bob", ExecuteMsg::UnlockStale {}, 0).unwrap();
    assert_eq!(chain.game, 6);
    assert_eq!(chain.bank("bob"), 10);
    assert_eq!(chain.state.last_depositor, "bob");
    assert_eq!(chain.state.round, 2);
}

#[test]
fn round_counts_claims_and_unlocks() {
    let mut chain = Chain::create(
        "owner",
        &[("alice", 100), ("bob", 100)],
        settings(None, 10, 1, 5, 20, 10),
        0,
    );
    let start = chain.state.round;
    chain.exec("alice", ExecuteMsg::Deposit {}, 1).unwrap();
    assert_eq!(chain.state.round, start);
    chain.now += 15;
    assert!(chain.exec("bob", ExecuteMsg::Claim {}, 0).is_err());
    assert_eq!(chain.state.round, start);
    chain.exec("alice", ExecuteMsg::Claim {}, 0).unwrap();
    assert_eq!(chain.state.round, start + 1);
    chain.now += 30;
    chain.exec("bob", ExecuteMsg::UnlockStale {}, 0).unwrap();
    assert_eq!(chain.state.round, start + 2);
    chain.exec("owner", ExecuteMsg::Pause {}, 0).unwrap();
    chain.exec("owner", ExecuteMsg::Unpause {}, 0).unwrap();
    assert_eq!(chain.state.round, start + 2);
}
