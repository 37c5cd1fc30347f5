//! The contract walked through whole calls, with a minimal host around it:
//! balances are tracked by hand, attached funds are credited before a call
//! as the host does, and emitted instructions are applied afterwards.

use counting_contract::contract::exec::{donate, reset, withdraw, withdraw_to};
use counting_contract::contract::{contract_name, contract_version, LegacyState, MigrateOutcome};
use counting_contract::error::ContractError;
use counting_contract::msg::{ExecMsg, IncrementResp, InstantiateMsg, MigrateMsg, Parent, QueryMsg};
use counting_contract::response::{OutMsg, Response};
use counting_contract::state::{ContractInfo, ParentDonation, State};
use counting_contract::types::{Addr, Coin, Decimal, MessageInfo};
use counting_contract::{execute, instantiate, migrate, query};

fn addr(s: &str) -> Addr {
    Addr::new(s.to_string())
}

fn sender() -> Addr {
    addr("sei18rszd3tmgpjvjwq2qajtmn5jqvtscd2yuygl4z")
}

fn other_sender() -> Addr {
    addr("sei1aan9kqywf4rf274cal0hj6eyly6wu0uv7edxy2")
}

fn owner() -> Addr {
    addr("sei1zj6fjsc2gkce878ukzg6g9wy8cl8p554dlggxd")
}

fn parent() -> Addr {
    addr("inj1g9v8suckezwx93zypckd4xg03r26h6ejlmsptz")
}

fn coin(amount: u128, denom: &str) -> Coin {
    Coin::new(amount, denom.to_string())
}

fn coins(amount: u128, denom: &str) -> Vec<Coin> {
    vec![coin(amount, denom)]
}

fn ten_atom() -> Coin {
    coin(10, "atom")
}

fn zero_atom() -> Coin {
    coin(0, "atom")
}

fn info(sender: Addr, funds: Vec<Coin>) -> MessageInfo {
    MessageInfo::new(sender, funds)
}

/// The amount of `denom` a balance holds; zero when the denomination is
/// absent, as the host's balance query reports it.
fn get_amount(bal: &[Coin], denom: &str) -> u128 {
    bal.iter()
        .find(|c| c.denom == denom)
        .map(|c| c.amount)
        .unwrap_or(0)
}

fn credit(bal: &mut Vec<Coin>, funds: &[Coin]) {
    for f in funds {
        match bal.iter_mut().find(|c| c.denom == f.denom) {
            Some(c) => c.amount += f.amount,
            None => {
                if f.amount > 0 {
                    bal.push(f.clone());
                }
            }
        }
    }
}

fn deduct(bal: &mut Vec<Coin>, funds: &[Coin]) {
    for f in funds {
        let c = bal
            .iter_mut()
            .find(|c| c.denom == f.denom)
            .expect("deducting a denomination that is not held");
        assert!(c.amount >= f.amount, "deducting more than is held");
        c.amount -= f.amount;
    }
    bal.retain(|c| c.amount > 0);
}

/// Whether the response's log records the given action by the given sender,
/// as the original events carried them.
fn verify_log(resp: &Response, action: &str, sender: &Addr) -> bool {
    match &resp.log {
        Some(log) => log.action == action && log.sender == sender.id,
        None => false,
    }
}

#[test]
fn query_value_should_work() {
    let (state, _config) = instantiate(
        InstantiateMsg::new(0, zero_atom(), None),
        info(sender(), vec![]),
        None,
    );

    let resp = query(&state, QueryMsg::Value {});

    assert_eq!(resp.value, 0);
}

#[test]
fn increment_should_work() {
    let (mut state, config) = instantiate(
        InstantiateMsg::new(0, ten_atom(), None),
        info(sender(), vec![]),
        None,
    );

    let resp = execute(
        &mut state,
        &config,
        vec![],
        &info(sender(), vec![]),
        ExecMsg::Increment { value: 10 },
        true,
    )
    .unwrap();

    let expected_value: u64 = 10;
    assert_eq!(resp.data, Some(IncrementResp::new(expected_value)));

    assert!(verify_log(&resp, "increment", &sender()));

    let resp = query(&state, QueryMsg::Value {});

    assert_eq!(resp.value, 10);
}

#[test]
fn reset_should_work() {
    let (mut state, _config) = instantiate(
        InstantiateMsg::new(0, ten_atom(), None),
        info(sender(), vec![]),
        None,
    );

    let resp = reset(&mut state, 10, &info(sender(), vec![])).unwrap();

    assert_eq!(resp.data, Some(IncrementResp::new(10)));

    let resp = query(&state, QueryMsg::Value {});

    assert_eq!(resp.value, 10);
}

#[test]
fn reset_not_owner_should_fail() {
    let (mut state, _config) = instantiate(
        InstantiateMsg::new(0, ten_atom(), None),
        info(sender(), vec![]),
        None,
    );

    let err = reset(&mut state, 10, &info(other_sender(), vec![])).unwrap_err();

    assert_eq!(
        ContractError::UnauthorizedErr {
            owner: sender().id
        },
        err,
    );
    assert_eq!(query(&state, QueryMsg::Value {}).value, 0);
}

#[test]
fn donate_should_work() {
    let (mut state, config) = instantiate(
        InstantiateMsg::new(0, ten_atom(), None),
        info(sender(), vec![]),
        None,
    );

    let resp = donate(&mut state, &config, &vec![], &info(sender(), vec![]));

    assert!(verify_log(&resp, "donate", &sender()));

    let resp = query(&state, QueryMsg::Value {});

    assert_eq!(resp.value, 0);
}

#[test]
fn donate_expecting_no_funds_should_work() {
    let (mut state, config) = instantiate(
        InstantiateMsg::new(0, zero_atom(), None),
        info(sender(), vec![]),
        None,
    );

    let resp = donate(&mut state, &config, &vec![], &info(sender(), vec![]));

    assert!(verify_log(&resp, "donate", &sender()));

    let resp = query(&state, QueryMsg::Value {});

    assert_eq!(resp.value, 1);
}

#[test]
fn donate_with_funds_should_work() {
    let mut sender_balance = coins(100, "atom");
    let mut contract_balance: Vec<Coin> = vec![];

    // Instantiation carries ten atom along; the host moves them first.
    deduct(&mut sender_balance, &[ten_atom()]);
    credit(&mut contract_balance, &[ten_atom()]);
    let (mut state, config) = instantiate(
        InstantiateMsg::new(0, zero_atom(), None),
        info(sender(), vec![ten_atom()]),
        None,
    );

    assert_eq!(get_amount(&sender_balance, "atom"), 90);
    assert_eq!(get_amount(&contract_balance, "atom"), 10);

    deduct(&mut sender_balance, &[ten_atom()]);
    credit(&mut contract_balance, &[ten_atom()]);
    let resp = donate(
        &mut state,
        &config,
        &contract_balance,
        &info(sender(), vec![ten_atom()]),
    );

    assert_eq!(get_amount(&sender_balance, "atom"), 80);
    assert_eq!(get_amount(&contract_balance, "atom"), 20);

    assert!(verify_log(&resp, "donate", &sender()));

    let resp = query(&state, QueryMsg::Value {});

    assert_eq!(resp.value, 1);
}

#[test]
fn withdraw_should_work() {
    let mut sender_balance = coins(100, "atom");
    let mut other_balance = coins(10, "atom");
    let mut owner_balance: Vec<Coin> = vec![];
    let mut contract_balance: Vec<Coin> = vec![];

    let (mut state, config) = instantiate(
        InstantiateMsg::new(0, zero_atom(), None),
        info(owner(), vec![]),
        None,
    );

    assert_eq!(get_amount(&contract_balance, "atom"), 0);

    deduct(&mut sender_balance, &[ten_atom()]);
    credit(&mut contract_balance, &[ten_atom()]);
    donate(
        &mut state,
        &config,
        &contract_balance,
        &info(sender(), vec![ten_atom()]),
    );
    deduct(&mut other_balance, &[ten_atom()]);
    credit(&mut contract_balance, &[ten_atom()]);
    donate(
        &mut state,
        &config,
        &contract_balance,
        &info(other_sender(), vec![ten_atom()]),
    );

    assert_eq!(get_amount(&contract_balance, "atom"), 20);

    let resp = withdraw(&state, &info(owner(), vec![]), contract_balance.clone()).unwrap();
    match &resp.messages[0] {
        OutMsg::BankSend { to_address, amount } => {
            assert_eq!(*to_address, owner().id);
            let moved = amount.clone();
            deduct(&mut contract_balance, &moved);
            credit(&mut owner_balance, &moved);
        }
        other => panic!("unexpected instruction: {:?}", other),
    }

    assert_eq!(get_amount(&sender_balance, "atom"), 90);
    assert_eq!(get_amount(&other_balance, "atom"), 0);
    assert_eq!(get_amount(&owner_balance, "atom"), 20);
}

#[test]
fn withdraw_not_owner_should_fail() {
    let (state, _config) = instantiate(
        InstantiateMsg::new(0, zero_atom(), None),
        info(owner(), vec![]),
        None,
    );

    let err = withdraw(&state, &info(other_sender(), vec![]), vec![]).unwrap_err();

    assert_eq!(
        ContractError::UnauthorizedErr {
            owner: owner().id
        },
        err,
    )
}

#[test]
fn withdraw_to_should_work() {
    let mut sender_balance = coins(100, "atom");
    let mut other_balance = coins(10, "atom");
    let mut contract_balance: Vec<Coin> = vec![];

    let (mut state, config) = instantiate(
        InstantiateMsg::new(0, zero_atom(), None),
        info(owner(), vec![]),
        None,
    );

    assert_eq!(get_amount(&contract_balance, "atom"), 0);

    deduct(&mut sender_balance, &[ten_atom()]);
    credit(&mut contract_balance, &[ten_atom()]);
    donate(
        &mut state,
        &config,
        &contract_balance,
        &info(sender(), vec![ten_atom()]),
    );
    deduct(&mut other_balance, &[ten_atom()]);
    credit(&mut contract_balance, &[ten_atom()]);
    donate(
        &mut state,
        &config,
        &contract_balance,
        &info(other_sender(), vec![ten_atom()]),
    );

    assert_eq!(get_amount(&contract_balance, "atom"), 20);

    let send_funds = coins(10, "atom");
    let resp = withdraw_to(
        &state,
        &info(owner(), vec![]),
        other_sender().id,
        send_funds,
        true,
        contract_balance.clone(),
    )
    .unwrap();
    match &resp.messages[0] {
        OutMsg::BankSend { to_address, amount } => {
            assert_eq!(*to_address, other_sender().id);
            let moved = amount.clone();
            deduct(&mut contract_balance, &moved);
            credit(&mut other_balance, &moved);
        }
        other => panic!("unexpected instruction: {:?}", other),
    }

    assert_eq!(get_amount(&sender_balance, "atom"), 90);
    assert_eq!(get_amount(&other_balance, "atom"), 10);
}

#[test]
fn withdraw_to_not_owner_should_fail() {
    let (state, _config) = instantiate(
        InstantiateMsg::new(0, zero_atom(), None),
        info(owner(), vec![]),
        None,
    );

    let send_funds = coins(10, "atom");
    let err = withdraw_to(
        &state,
        &info(sender(), vec![]),
        other_sender().id,
        send_funds,
        true,
        vec![],
    )
    .unwrap_err();

    assert_eq!(
        ContractError::UnauthorizedErr {
            owner: owner().id
        },
        err,
    )
}

#[test]
fn withdraw_to_invalid_address_should_fail() {
    let (state, _config) = instantiate(
        InstantiateMsg::new(0, zero_atom(), None),
        info(owner(), vec![]),
        None,
    );

    let send_funds = coins(10, "atom");
    // The host validator rejects "ABC"; its verdict comes in as `false`.
    let err = withdraw_to(
        &state,
        &info(sender(), vec![]),
        "ABC".to_string(),
        send_funds,
        false,
        vec![],
    )
    .unwrap_err();

    assert_eq!(
        ContractError::InvalidAddressErr {
            address: "ABC".to_string()
        },
        err,
    )
}

#[test]
fn migrate_should_work() {
    // An instance laid down by the first shipped layout, after one donation
    // under a disabled threshold brought its counter to 1.
    let legacy = LegacyState::V0_1_0 {
        counter: 1,
        donation: zero_atom(),
        owner: owner(),
    };
    let stored_info = ContractInfo::new(contract_name(), "0.1.0".to_string());

    let outcome = migrate(&stored_info, Some(legacy), MigrateMsg { parent: None }, None).unwrap();

    let (state, parent_donation) = match outcome {
        MigrateOutcome::Updated {
            state,
            parent_donation,
        } => (state, parent_donation),
        MigrateOutcome::NoOp => panic!("expected an updated state"),
    };

    let resp = query(&state, QueryMsg::Value {});
    assert_eq!(resp.value, 1);

    assert_eq!(state, State::new(1, zero_atom(), owner(), None));
    assert_eq!(parent_donation, None);
}

#[test]
fn migrate_no_update_should_works() {
    let (mut state, config) = instantiate(
        InstantiateMsg::new(0, ten_atom(), None),
        info(sender(), vec![]),
        None,
    );

    let mut contract_balance: Vec<Coin> = vec![];
    credit(&mut contract_balance, &[ten_atom()]);
    donate(
        &mut state,
        &config,
        &contract_balance,
        &info(sender(), vec![ten_atom()]),
    );

    let stored_info = ContractInfo::new(contract_name(), contract_version());
    let outcome = migrate(&stored_info, None, MigrateMsg { parent: None }, None).unwrap();
    assert!(matches!(outcome, MigrateOutcome::NoOp));

    let resp = query(&state, QueryMsg::Value {});
    assert_eq!(resp.value, 1);

    assert_eq!(state, State::new(1, ten_atom(), sender(), None));
}

#[test]
fn donate_parent_should_works() {
    let mut sender_balance = coins(20, "atom");
    let owner_balance: Vec<Coin> = vec![];
    let mut contract_balance: Vec<Coin> = vec![];
    let mut parent_balance: Vec<Coin> = vec![];

    let parent_addr = addr("parent-contract");
    let (mut parent_state, parent_config) = instantiate(
        InstantiateMsg::new(0, ten_atom(), None),
        info(owner(), vec![]),
        None,
    );

    let (mut state, config) = instantiate(
        InstantiateMsg::new(
            0,
            ten_atom(),
            Some(Parent {
                addr: parent_addr.id.clone(),
                donating_period: 2,
                part: Decimal::percent(10),
            }),
        ),
        info(owner(), vec![]),
        Some(parent_addr.clone()),
    );

    deduct(&mut sender_balance, &[ten_atom()]);
    credit(&mut contract_balance, &[ten_atom()]);
    let resp = donate(
        &mut state,
        &config,
        &contract_balance,
        &info(sender(), vec![ten_atom()]),
    );
    assert!(resp.messages.is_empty());

    deduct(&mut sender_balance, &[ten_atom()]);
    credit(&mut contract_balance, &[ten_atom()]);
    let resp = donate(
        &mut state,
        &config,
        &contract_balance,
        &info(sender(), vec![ten_atom()]),
    );

    // The second threshold-satisfying donation fires the cascade: the host
    // moves the forwarded funds and runs the parent's own donate.
    assert_eq!(resp.messages.len(), 1);
    match &resp.messages[0] {
        OutMsg::ForwardDonation {
            contract_addr,
            funds,
        } => {
            assert_eq!(*contract_addr, parent_addr.id);
            let moved = funds.clone();
            deduct(&mut contract_balance, &moved);
            credit(&mut parent_balance, &moved);
            donate(
                &mut parent_state,
                &parent_config,
                &parent_balance,
                &info(addr("counting-contract-instance"), moved),
            );
        }
        other => panic!("unexpected instruction: {:?}", other),
    }

    let resp = query(&state, QueryMsg::Value {});
    assert_eq!(resp.value, 2);

    assert!(owner_balance.is_empty());
    assert_eq!(get_amount(&sender_balance, "atom"), 0);
    assert_eq!(contract_balance, coins(18, "atom"));
    assert_eq!(parent_balance, coins(2, "atom"));
}

#[test]
fn migrate_parent_should_works() {
    let legacy = LegacyState::V0_1_0 {
        counter: 1,
        donation: zero_atom(),
        owner: owner(),
    };
    let stored_info = ContractInfo::new(contract_name(), "0.1.0".to_string());

    let outcome = migrate(
        &stored_info,
        Some(legacy),
        MigrateMsg {
            parent: Some(Parent {
                addr: parent().id.clone(),
                donating_period: 2,
                part: Decimal::percent(10),
            }),
        },
        Some(parent()),
    )
    .unwrap();

    let (state, parent_donation) = match outcome {
        MigrateOutcome::Updated {
            state,
            parent_donation,
        } => (state, parent_donation),
        MigrateOutcome::NoOp => panic!("expected an updated state"),
    };

    let resp = query(&state, QueryMsg::Value {});
    assert_eq!(resp.value, 1);

    assert_eq!(state, State::new(1, zero_atom(), owner(), Some(2)));

    assert_eq!(
        parent_donation,
        Some(ParentDonation {
            address: parent(),
            donating_parent_period: 2,
            part: Decimal::percent(10),
        })
    )
}
