use cw_facepalm_coin::account::AccountId;
use cw_facepalm_coin::contract::{
    burn, execute, instantiate, query, query_balance, read_state, transfer, Contract,
};
use cw_facepalm_coin::error::ContractError;
use cw_facepalm_coin::msg::{ExecuteMsg, InstantiateMsg, Method, QueryMsg};

fn acct(s: &str) -> AccountId {
    AccountId::from_bytes(s.as_bytes().to_vec())
}

fn balance(contract: &Contract, s: &str) -> u128 {
    query(contract, QueryMsg::GetBalance { address: acct(s) }).balance
}

#[test]
fn instantiate_transfer_burn() {
    // instantiate
    let mut contract = Contract::new();
    let msg = InstantiateMsg { burn_address: acct("burnbabyburn"), initial_balance: 1000 };
    let caller = acct("foo");
    instantiate(&mut contract, &caller, msg).unwrap();

    let balance_value = query(&contract, QueryMsg::GetBalance { address: acct("foo") });
    assert_eq!(1000, balance_value.balance);

    // transfer
    execute(
        &mut contract,
        &acct("foo"),
        ExecuteMsg::Transfer { receiver: acct("bar"), amount: 10 },
    )
    .unwrap();
    println!("{:?}", ExecuteMsg::Transfer { receiver: acct("bar"), amount: 10 });

    let foo_balance_value = query(&contract, QueryMsg::GetBalance { address: acct("foo") });
    assert_eq!(990, foo_balance_value.balance);

    let bar_balance_value = query(&contract, QueryMsg::GetBalance { address: acct("bar") });
    assert_eq!(10, bar_balance_value.balance);

    // burn
    execute(&mut contract, &acct("bar"), ExecuteMsg::Burn { amount: 3 }).unwrap();

    let foo_balance_value = query(&contract, QueryMsg::GetBalance { address: acct("foo") });
    assert_eq!(990, foo_balance_value.balance);

    let bar_balance_value = query(&contract, QueryMsg::GetBalance { address: acct("bar") });
    assert_eq!(7, bar_balance_value.balance);

    let burn_balance_value =
        query(&contract, QueryMsg::GetBalance { address: acct("burnbabyburn") });
    assert_eq!(3, burn_balance_value.balance);
}

#[test]
fn instantiate_reports_attributes() {
    let mut contract = Contract::new();
    let msg = InstantiateMsg { burn_address: acct("ash"), initial_balance: 5 };
    let resp = instantiate(&mut contract, &acct("alice"), msg).unwrap();
    assert_eq!(resp.method, Method::Instantiate);
    assert_eq!(resp.owner.unwrap().as_bytes(), acct("alice").as_bytes());
    assert_eq!(resp.burn_address.unwrap().as_bytes(), acct("ash").as_bytes());
}

#[test]
fn conservation_across_transfers() {
    let mut contract = Contract::new();
    let msg = InstantiateMsg { burn_address: acct("ash"), initial_balance: 500 };
    instantiate(&mut contract, &acct("alice"), msg).unwrap();
    transfer(&mut contract, &acct("alice"), &acct("bob"), 123).unwrap();
    transfer(&mut contract, &acct("bob"), &acct("carol"), 23).unwrap();
    burn(&mut contract, &acct("carol"), 3).unwrap();
    let total = balance(&contract, "alice")
        + balance(&contract, "bob")
        + balance(&contract, "carol")
        + balance(&contract, "ash");
    assert_eq!(500, total);
    assert_eq!(377, balance(&contract, "alice"));
    assert_eq!(100, balance(&contract, "bob"));
    assert_eq!(20, balance(&contract, "carol"));
    assert_eq!(3, balance(&contract, "ash"));
}

#[test]
fn insufficient_funds_mutates_nothing() {
    let mut contract = Contract::new();
    let msg = InstantiateMsg { burn_address: acct("ash"), initial_balance: 50 };
    instantiate(&mut contract, &acct("alice"), msg).unwrap();
    let err = transfer(&mut contract, &acct("alice"), &acct("bob"), 51).unwrap_err();
    assert_eq!(err, ContractError::InsufficientBalance);
    assert_eq!(50, balance(&contract, "alice"));
    assert_eq!(0, balance(&contract, "bob"));
}

#[test]
fn self_transfer_preserves_balance() {
    let mut contract = Contract::new();
    let msg = InstantiateMsg { burn_address: acct("ash"), initial_balance: 40 };
    instantiate(&mut contract, &acct("alice"), msg).unwrap();
    transfer(&mut contract, &acct("alice"), &acct("alice"), 15).unwrap();
    assert_eq!(40, balance(&contract, "alice"));
}

#[test]
fn zero_amount_transfer_is_a_noop() {
    let mut contract = Contract::new();
    let msg = InstantiateMsg { burn_address: acct("ash"), initial_balance: 40 };
    instantiate(&mut contract, &acct("alice"), msg).unwrap();
    // Even a penniless sender may transfer 0.
    transfer(&mut contract, &acct("bob"), &acct("alice"), 0).unwrap();
    transfer(&mut contract, &acct("alice"), &acct("bob"), 0).unwrap();
    assert_eq!(40, balance(&contract, "alice"));
    assert_eq!(0, balance(&contract, "bob"));
}

#[test]
fn default_balance_is_zero() {
    let fresh = Contract::new();
    assert_eq!(0, balance(&fresh, "nobody"));

    let mut contract = Contract::new();
    let msg = InstantiateMsg { burn_address: acct("ash"), initial_balance: 7 };
    instantiate(&mut contract, &acct("alice"), msg).unwrap();
    assert_eq!(0, balance(&contract, "never-credited"));
    assert_eq!(0, query_balance(&contract, &acct("stranger")).balance);
}

#[test]
fn credit_at_maximum_overflows() {
    let mut contract = Contract::new();
    let msg = InstantiateMsg { burn_address: acct("ash"), initial_balance: u128::MAX };
    instantiate(&mut contract, &acct("alice"), msg).unwrap();
    // A second credit of any positive amount would exceed the maximum.
    let again = InstantiateMsg { burn_address: acct("ash"), initial_balance: 1 };
    let err = instantiate(&mut contract, &acct("alice"), again).unwrap_err();
    assert_eq!(err, ContractError::Overflow);
    assert_eq!(u128::MAX, balance(&contract, "alice"));
}

#[test]
fn transfer_into_maximum_balance_overflows() {
    let mut contract = Contract::new();
    let first = InstantiateMsg { burn_address: acct("ash"), initial_balance: u128::MAX };
    instantiate(&mut contract, &acct("alice"), first).unwrap();
    let second = InstantiateMsg { burn_address: acct("ash"), initial_balance: u128::MAX };
    instantiate(&mut contract, &acct("bob"), second).unwrap();
    let err = transfer(&mut contract, &acct("alice"), &acct("bob"), 1).unwrap_err();
    assert_eq!(err, ContractError::Overflow);
    assert_eq!(u128::MAX, balance(&contract, "alice"));
    assert_eq!(u128::MAX, balance(&contract, "bob"));
}

#[test]
fn burn_before_initialization_fails() {
    let mut contract = Contract::new();
    let err = burn(&mut contract, &acct("alice"), 1).unwrap_err();
    assert_eq!(err, ContractError::Uninitialized);
    let err = execute(&mut contract, &acct("alice"), ExecuteMsg::Burn { amount: 0 }).unwrap_err();
    assert_eq!(err, ContractError::Uninitialized);
}

#[test]
fn state_read_before_and_after_initialization() {
    let mut contract = Contract::new();
    let err = read_state(&contract).unwrap_err();
    assert_eq!(err, ContractError::Uninitialized);
    let msg = InstantiateMsg { burn_address: acct("ash"), initial_balance: 9 };
    instantiate(&mut contract, &acct("alice"), msg).unwrap();
    let state = read_state(&contract).unwrap();
    assert_eq!(state.owner.as_bytes(), acct("alice").as_bytes());
    assert_eq!(state.burn_address.as_bytes(), acct("ash").as_bytes());
}

#[test]
fn burn_moves_funds_to_burn_account() {
    let mut contract = Contract::new();
    let msg = InstantiateMsg { burn_address: acct("ash"), initial_balance: 100 };
    instantiate(&mut contract, &acct("alice"), msg).unwrap();
    let resp = burn(&mut contract, &acct("alice"), 60).unwrap();
    assert_eq!(resp.method, Method::Empty);
    assert!(resp.owner.is_none());
    assert_eq!(40, balance(&contract, "alice"));
    assert_eq!(60, balance(&contract, "ash"));
    let err = burn(&mut contract, &acct("alice"), 41).unwrap_err();
    assert_eq!(err, ContractError::InsufficientBalance);
    assert_eq!(40, balance(&contract, "alice"));
    assert_eq!(60, balance(&contract, "ash"));
}
