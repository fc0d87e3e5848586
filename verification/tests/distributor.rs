use token_distributor::contract::{execute, instantiate, query};
use token_distributor::error::ContractError;
use token_distributor::msg::{
    Cw20HookMsg, DepositMsg, ExecuteMsg, InstantiateMsg, QueryAnswer, QueryMsg, ReceiveMsg,
    TransferMsg, WithdrawAllMsg, WithdrawFeeMsg, WithdrawMsg, WithdrawableMsg,
};
use token_distributor::state::ContractState;

fn instantiate_default() -> ContractState {
    instantiate(InstantiateMsg {
        token: "asset0001".to_string(),
        owner: "addr0000".to_string(),
    })
}

fn deposit_msg(amount: u128) -> ExecuteMsg {
    ExecuteMsg::Receive(ReceiveMsg {
        sender: "addr0000".to_string(),
        msg: Some(Cw20HookMsg::Deposit(DepositMsg {
            addr1: "addr0002".to_string(),
            addr2: "addr0003".to_string(),
        })),
        amount,
    })
}

fn query_withdrawable(state: &ContractState, addr: &str) -> u128 {
    match query(
        state,
        QueryMsg::Withdrawable(WithdrawableMsg {
            addr: addr.to_string(),
        }),
    ) {
        QueryAnswer::Withdrawable(amount) => amount,
        _ => panic!("unexpected query answer"),
    }
}

#[test]
fn proper_initialization() {
    let state = instantiate_default();

    let owner = match query(&state, QueryMsg::Owner()) {
        QueryAnswer::Owner(owner) => owner,
        _ => panic!("unexpected query answer"),
    };
    assert_eq!("addr0000".to_string(), owner);
}

#[test]
fn execute_deposit() {
    let mut state = instantiate_default();

    execute(&mut state, "asset0001".to_string(), deposit_msg(100)).unwrap();

    let withdrawable1 = query_withdrawable(&state, "addr0002");
    assert_eq!(47u128, withdrawable1);
    let withdrawable2 = query_withdrawable(&state, "addr0003");
    assert_eq!(48u128, withdrawable2);
}

#[test]
fn execute_withdraw() {
    let mut state = instantiate_default();

    execute(&mut state, "asset0001".to_string(), deposit_msg(1000)).unwrap();

    let withdraw_msg = ExecuteMsg::Withdraw(WithdrawMsg { amount: 300 });

    let res = execute(&mut state, "addr0002".to_string(), withdraw_msg).unwrap();

    let withdrawable = query_withdrawable(&state, "addr0002");
    assert_eq!(175u128, withdrawable);

    let msg_transfer = res.messages.get(0).expect("no message");
    assert_eq!(
        &TransferMsg {
            recipient: "addr0002".to_string(),
            amount: 300,
        },
        msg_transfer,
    );
}

#[test]
fn execute_withdraw_all() {
    let mut state = instantiate_default();

    execute(&mut state, "asset0001".to_string(), deposit_msg(1000)).unwrap();

    let withdraw_msg = ExecuteMsg::WithdrawAll(WithdrawAllMsg {});

    let res = execute(&mut state, "addr0002".to_string(), withdraw_msg).unwrap();

    let withdrawable = query_withdrawable(&state, "addr0002");
    assert_eq!(0u128, withdrawable);

    let msg_transfer = res.messages.get(0).expect("no message");
    assert_eq!(
        &TransferMsg {
            recipient: "addr0002".to_string(),
            amount: 475,
        },
        msg_transfer,
    );
}

#[test]
fn execute_withdraw_fee() {
    let mut state = instantiate_default();

    execute(&mut state, "asset0001".to_string(), deposit_msg(1000)).unwrap();

    let withdraw_fee_msg = ExecuteMsg::WithdrawFee(WithdrawFeeMsg {});

    let res = execute(&mut state, "addr0001".to_string(), withdraw_fee_msg.clone()).unwrap_err();
    match res {
        ContractError::Unauthorized {} => (),
        _ => panic!("DO NOT ENTER HERE"),
    }

    let res = execute(&mut state, "addr0000".to_string(), withdraw_fee_msg).unwrap();

    let msg_transfer = res.messages.get(0).expect("no message");
    assert_eq!(
        &TransferMsg {
            recipient: "addr0000".to_string(),
            amount: 50,
        },
        msg_transfer,
    );
}

#[test]
fn deposit_conserves_value() {
    // fee + share1 + share2 must equal the deposited amount exactly.
    for amount in [100u128, 1000, 1001, 7, 19, 999, 12345] {
        let mut state = instantiate_default();
        execute(&mut state, "asset0001".to_string(), deposit_msg(amount)).unwrap();

        let share1 = query_withdrawable(&state, "addr0002");
        let share2 = query_withdrawable(&state, "addr0003");
        let fee_msg = ExecuteMsg::WithdrawFee(WithdrawFeeMsg {});
        let res = execute(&mut state, "addr0000".to_string(), fee_msg).unwrap();
        let fee = res.messages.get(0).expect("no message").amount;

        assert_eq!(fee, amount * 50 / 1000);
        assert_eq!(fee + share1 + share2, amount);
        assert!(share2 >= share1);
        assert_eq!(share1 + share2, amount - fee);
    }
}

#[test]
fn deposit_of_100_splits_5_47_48() {
    let mut state = instantiate_default();
    execute(&mut state, "asset0001".to_string(), deposit_msg(100)).unwrap();

    assert_eq!(47u128, query_withdrawable(&state, "addr0002"));
    assert_eq!(48u128, query_withdrawable(&state, "addr0003"));
    let fee_msg = ExecuteMsg::WithdrawFee(WithdrawFeeMsg {});
    let res = execute(&mut state, "addr0000".to_string(), fee_msg).unwrap();
    assert_eq!(5u128, res.messages.get(0).expect("no message").amount);
}

#[test]
fn deposit_of_1000_credits_both_recipients_475() {
    let mut state = instantiate_default();
    execute(&mut state, "asset0001".to_string(), deposit_msg(1000)).unwrap();

    assert_eq!(475u128, query_withdrawable(&state, "addr0002"));
    assert_eq!(475u128, query_withdrawable(&state, "addr0003"));
}

#[test]
fn deposits_accumulate() {
    let mut state = instantiate_default();
    execute(&mut state, "asset0001".to_string(), deposit_msg(1000)).unwrap();
    execute(&mut state, "asset0001".to_string(), deposit_msg(100)).unwrap();

    assert_eq!(475 + 47u128, query_withdrawable(&state, "addr0002"));
    assert_eq!(475 + 48u128, query_withdrawable(&state, "addr0003"));
}

#[test]
fn deposit_to_one_address_credits_both_shares() {
    // An address named as both recipients collects both shares: the whole
    // remainder after the fee, so no value is lost.
    let mut state = instantiate_default();
    let msg = ExecuteMsg::Receive(ReceiveMsg {
        sender: "addr0000".to_string(),
        msg: Some(Cw20HookMsg::Deposit(DepositMsg {
            addr1: "addr0002".to_string(),
            addr2: "addr0002".to_string(),
        })),
        amount: 100,
    });
    execute(&mut state, "asset0001".to_string(), msg).unwrap();

    assert_eq!(95u128, query_withdrawable(&state, "addr0002"));
}

#[test]
fn deposit_from_wrong_token_rejected_as_unauthorized() {
    let mut state = instantiate_default();
    let res = execute(&mut state, "asset0002".to_string(), deposit_msg(100)).unwrap_err();
    assert_eq!(ContractError::Unauthorized {}, res);
    assert_eq!(0u128, query_withdrawable(&state, "addr0002"));
    assert_eq!(0u128, query_withdrawable(&state, "addr0003"));
}

#[test]
fn deposit_with_undecoded_payload_rejected_as_unauthorized() {
    let mut state = instantiate_default();
    let msg = ExecuteMsg::Receive(ReceiveMsg {
        sender: "addr0000".to_string(),
        msg: None,
        amount: 100,
    });
    let res = execute(&mut state, "asset0001".to_string(), msg).unwrap_err();
    assert_eq!(ContractError::Unauthorized {}, res);
}

#[test]
fn zero_withdraw_always_rejected() {
    let mut state = instantiate_default();
    execute(&mut state, "asset0001".to_string(), deposit_msg(1000)).unwrap();

    // With a positive balance.
    let msg = ExecuteMsg::Withdraw(WithdrawMsg { amount: 0 });
    let res = execute(&mut state, "addr0002".to_string(), msg).unwrap_err();
    assert_eq!(ContractError::InvalidZeroAmount {}, res);

    // With no balance at all.
    let msg = ExecuteMsg::Withdraw(WithdrawMsg { amount: 0 });
    let res = execute(&mut state, "addr0009".to_string(), msg).unwrap_err();
    assert_eq!(ContractError::InvalidZeroAmount {}, res);
}

#[test]
fn overdraft_rejected_and_full_balance_drains() {
    let mut state = instantiate_default();
    execute(&mut state, "asset0001".to_string(), deposit_msg(1000)).unwrap();

    let msg = ExecuteMsg::Withdraw(WithdrawMsg { amount: 476 });
    let res = execute(&mut state, "addr0002".to_string(), msg).unwrap_err();
    assert_eq!(ContractError::InsufficientAmount {}, res);
    assert_eq!(475u128, query_withdrawable(&state, "addr0002"));

    let msg = ExecuteMsg::Withdraw(WithdrawMsg { amount: 475 });
    let res = execute(&mut state, "addr0002".to_string(), msg).unwrap();
    assert_eq!(0u128, query_withdrawable(&state, "addr0002"));
    assert_eq!(475u128, res.messages.get(0).expect("no message").amount);
}

#[test]
fn withdraw_all_on_zero_balance_rejected() {
    let mut state = instantiate_default();
    let msg = ExecuteMsg::WithdrawAll(WithdrawAllMsg {});
    let res = execute(&mut state, "addr0002".to_string(), msg).unwrap_err();
    assert_eq!(ContractError::InvalidZeroAmount {}, res);
}

#[test]
fn withdraw_fee_on_empty_pool_still_succeeds() {
    // Unlike an ordinary withdrawal, fee collection has no zero guard: a
    // zero pool yields a zero-amount transfer instruction.
    let mut state = instantiate_default();
    let msg = ExecuteMsg::WithdrawFee(WithdrawFeeMsg {});
    let res = execute(&mut state, "addr0000".to_string(), msg).unwrap();
    assert_eq!(
        &TransferMsg {
            recipient: "addr0000".to_string(),
            amount: 0,
        },
        res.messages.get(0).expect("no message"),
    );
}

#[test]
fn withdraw_fee_drains_pool_to_zero() {
    let mut state = instantiate_default();
    execute(&mut state, "asset0001".to_string(), deposit_msg(1000)).unwrap();

    let msg = ExecuteMsg::WithdrawFee(WithdrawFeeMsg {});
    let res = execute(&mut state, "addr0000".to_string(), msg.clone()).unwrap();
    assert_eq!(50u128, res.messages.get(0).expect("no message").amount);

    // A second collection finds the pool empty.
    let res = execute(&mut state, "addr0000".to_string(), msg).unwrap();
    assert_eq!(0u128, res.messages.get(0).expect("no message").amount);
}

#[test]
fn withdrawable_query_is_idempotent() {
    let mut state = instantiate_default();
    execute(&mut state, "asset0001".to_string(), deposit_msg(1000)).unwrap();

    let first = query_withdrawable(&state, "addr0002");
    let second = query_withdrawable(&state, "addr0002");
    let third = query_withdrawable(&state, "addr0002");
    assert_eq!(first, second);
    assert_eq!(second, third);
    assert_eq!(475u128, first);
}
