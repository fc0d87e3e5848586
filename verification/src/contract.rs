//! The entry points of the accounting engine. Each operation takes the
//! persistent state by reference together with the caller's identity and its
//! message, and returns either a typed error or the outbound transfer
//! instructions to emit. Every contract is an if-and-only-if description of
//! the operation: which inputs are rejected with which error, and exactly
//! how the state and the emitted instructions relate to the inputs.

use vstd::prelude::*;

use crate::error::ContractError;
use crate::msg::{
    Cw20HookMsg, DepositMsg, ExecuteMsg, InstantiateMsg, QueryAnswer, QueryMsg, ReceiveMsg,
    Response, TransferMsg, WithdrawMsg, WithdrawableMsg,
};
use crate::split::{compute_fee, fee_of, lemma_split_conservation, share1_of, share2_of};
use crate::state::{BalanceMap, ContractInfo, ContractState};

verus! {

/// A successful outcome whose sole instruction transfers `amount` to
/// `recipient`.
pub open spec fn is_single_transfer(
    r: Result<Response, ContractError>,
    recipient: Seq<char>,
    amount: u128,
) -> bool {
    match r {
        Ok(resp) => resp.messages@.len() == 1 && resp.messages@[0].recipient@ == recipient
            && resp.messages@[0].amount == amount,
        Err(_) => false,
    }
}

/// How settlement relates the state before (`pre`) and after (`post`) a
/// withdrawal of `amount` by `sender`, and its outcome `r`: a zero amount is
/// rejected, an amount above the sender's withdrawable balance is rejected,
/// and otherwise exactly that balance is debited and one transfer of the
/// amount to the sender is emitted. Rejections leave the state untouched.
pub open spec fn settle_spec(
    pre: ContractState,
    post: ContractState,
    sender: Seq<char>,
    amount: u128,
    r: Result<Response, ContractError>,
) -> bool {
    if amount == 0 {
        post == pre && (r matches Err(ContractError::InvalidZeroAmount {}))
    } else if amount > pre.withdrawable_of(sender) {
        post == pre && (r matches Err(ContractError::InsufficientAmount {}))
    } else {
        post.info == pre.info && post.fee_collected == pre.fee_collected
            && post.withdrawable_of(sender) == pre.withdrawable_of(sender) - amount
            && (forall|b: Seq<char>|
                b != sender ==> post.withdrawable_of(b) == pre.withdrawable_of(b))
            && is_single_transfer(r, sender, amount)
    }
}

/// How fee collection relates the states and the outcome: any caller but the
/// owner is rejected and the state is untouched; the owner always succeeds,
/// the fee pool is reset to zero whatever it held — a zero pool is *not*
/// rejected, unlike an ordinary zero withdrawal — and one transfer of the
/// whole pool to the owner is emitted.
pub open spec fn withdraw_fee_spec(
    pre: ContractState,
    post: ContractState,
    sender: Seq<char>,
    r: Result<Response, ContractError>,
) -> bool {
    if sender != pre.info.owner@ {
        post == pre && (r matches Err(ContractError::Unauthorized {}))
    } else {
        post.info == pre.info && post.withdrawable == pre.withdrawable
            && post.fee_collected == 0 && is_single_transfer(r, sender, pre.fee_collected)
    }
}

/// The machine-limit headroom a booked deposit needs: the fee pool and each
/// credited balance must still fit in u128. When both recipients are the
/// same address it takes both shares, so it needs headroom for their sum.
pub open spec fn deposit_fits(pre: ContractState, amount: u128, d: DepositMsg) -> bool {
    pre.fee_collected + fee_of(amount) <= u128::MAX && (if d.addr1@ == d.addr2@ {
        pre.withdrawable_of(d.addr2@) + share1_of(amount) + share2_of(amount) <= u128::MAX
    } else {
        pre.withdrawable_of(d.addr1@) + share1_of(amount) <= u128::MAX
            && pre.withdrawable_of(d.addr2@) + share2_of(amount) <= u128::MAX
    })
}

/// How a deposit notification relates the states and the outcome: a payload
/// that did not decode as a deposit instruction is rejected as unauthorized,
/// and so is a notifying party other than the configured token; otherwise
/// the fee is added to the pool and each recipient is credited its share,
/// with no outbound instruction. When both recipients are the same address,
/// that address is credited both shares — the whole remainder after the
/// fee — so no value is lost. Rejections leave the state untouched.
pub open spec fn deposit_spec(
    pre: ContractState,
    post: ContractState,
    sender: Seq<char>,
    amount: u128,
    hook: Option<Cw20HookMsg>,
    r: Result<Response, ContractError>,
) -> bool {
    match hook {
        None => post == pre && (r matches Err(ContractError::Unauthorized {})),
        Some(Cw20HookMsg::Deposit(d)) => {
            if sender != pre.info.token@ {
                post == pre && (r matches Err(ContractError::Unauthorized {}))
            } else {
                post.info == pre.info
                    && post.fee_collected == pre.fee_collected + fee_of(amount)
                    && (if d.addr1@ == d.addr2@ {
                        post.withdrawable_of(d.addr2@) == pre.withdrawable_of(d.addr2@)
                            + share1_of(amount) + share2_of(amount)
                    } else {
                        post.withdrawable_of(d.addr1@) == pre.withdrawable_of(d.addr1@)
                            + share1_of(amount) && post.withdrawable_of(d.addr2@)
                            == pre.withdrawable_of(d.addr2@) + share2_of(amount)
                    })
                    && (forall|b: Seq<char>|
                        b != d.addr1@ && b != d.addr2@ ==> post.withdrawable_of(b)
                            == pre.withdrawable_of(b))
                    && (r matches Ok(resp) && resp.messages@.len() == 0)
            }
        },
    }
}

/// One-time setup: store the configuration and start with an empty fee pool
/// and no withdrawable balances. Both addresses are canonical; validating
/// the raw strings is the host adapter's business.
pub fn instantiate(msg: InstantiateMsg) -> (state: ContractState)
    ensures
        state.info.token@ == msg.token@,
        state.info.owner@ == msg.owner@,
        state.fee_collected == 0,
        forall|addr: Seq<char>| state.withdrawable_of(addr) == 0,
{
    let InstantiateMsg { token, owner } = msg;
    ContractState {
        info: ContractInfo { token, owner },
        withdrawable: BalanceMap::new(),
        fee_collected: 0,
    }
}

/// Dispatch an operation to its handler. `sender` is the caller's canonical
/// address — for a deposit notification, the notifying contract.
pub fn execute(state: &mut ContractState, sender: String, msg: ExecuteMsg) -> (r: Result<
    Response,
    ContractError,
>)
    requires
        msg matches ExecuteMsg::Receive(rm) ==> (rm.msg matches Some(Cw20HookMsg::Deposit(d))
            ==> (sender@ == old(state).info.token@ ==> deposit_fits(
            *old(state),
            rm.amount,
            d,
        ))),
    ensures
        match msg {
            ExecuteMsg::Withdraw(m) => settle_spec(
                *old(state),
                *final(state),
                sender@,
                m.amount,
                r,
            ),
            ExecuteMsg::WithdrawAll(_) => settle_spec(
                *old(state),
                *final(state),
                sender@,
                old(state).withdrawable_of(sender@),
                r,
            ),
            ExecuteMsg::WithdrawFee(_) => withdraw_fee_spec(*old(state), *final(state), sender@, r),
            ExecuteMsg::Receive(m) => deposit_spec(
                *old(state),
                *final(state),
                sender@,
                m.amount,
                m.msg,
                r,
            ),
        },
{
    match msg {
        ExecuteMsg::Withdraw(m) => withdraw(state, sender, m),
        ExecuteMsg::WithdrawAll(_m) => withdraw_all(state, sender),
        ExecuteMsg::WithdrawFee(_m) => withdraw_fee(state, sender),
        ExecuteMsg::Receive(m) => deposit(state, sender, m),
    }
}

/// Withdraw a specific amount from the caller's withdrawable balance.
pub fn withdraw(state: &mut ContractState, sender: String, msg: WithdrawMsg) -> (r: Result<
    Response,
    ContractError,
>)
    ensures
        settle_spec(*old(state), *final(state), sender@, msg.amount, r),
{
    settle(state, sender, msg.amount)
}

/// Withdraw the caller's entire withdrawable balance. A zero balance is
/// rejected as a zero-amount request rather than silently succeeding.
pub fn withdraw_all(state: &mut ContractState, sender: String) -> (r: Result<
    Response,
    ContractError,
>)
    ensures
        settle_spec(*old(state), *final(state), sender@, old(state).withdrawable_of(sender@), r),
{
    let amount = state.withdrawable.get(&sender);
    settle(state, sender, amount)
}

/// Collect the accumulated fee pool; only the configured owner may. The pool
/// is reset to zero and transferred whole, even when it is zero.
pub fn withdraw_fee(state: &mut ContractState, sender: String) -> (r: Result<
    Response,
    ContractError,
>)
    ensures
        withdraw_fee_spec(*old(state), *final(state), sender@, r),
{
    if !(sender == state.info.owner) {
        return Err(ContractError::Unauthorized {});
    }
    let fee = state.fee_collected;
    state.fee_collected = 0;
    let mut messages: Vec<TransferMsg> = Vec::new();
    messages.push(TransferMsg { recipient: sender, amount: fee });
    Ok(Response { messages })
}

/// Shared settlement: debit `amount` from `sender`'s withdrawable balance
/// and emit one transfer of it to `sender`. Zero amounts and amounts above
/// the balance are rejected before any state is touched.
pub fn settle(state: &mut ContractState, sender: String, amount: u128) -> (r: Result<
    Response,
    ContractError,
>)
    ensures
        settle_spec(*old(state), *final(state), sender@, amount, r),
{
    if amount == 0 {
        return Err(ContractError::InvalidZeroAmount {});
    }
    let available = state.withdrawable.get(&sender);
    if amount > available {
        return Err(ContractError::InsufficientAmount {});
    }
    state.withdrawable.set(&sender, available - amount);
    let mut messages: Vec<TransferMsg> = Vec::new();
    messages.push(TransferMsg { recipient: sender, amount });
    Ok(Response { messages })
}

/// Book an inbound deposit: a notification from any party but the
/// configured token, like an undecodable payload, is rejected as
/// unauthorized; otherwise the fee is added to the pool and each recipient
/// is credited its share of the remainder. No outbound transfer is emitted.
/// The recipient addresses are canonical; validating the raw strings is the
/// host adapter's business.
pub fn deposit(state: &mut ContractState, sender: String, cw20_msg: ReceiveMsg) -> (r: Result<
    Response,
    ContractError,
>)
    requires
        cw20_msg.msg matches Some(Cw20HookMsg::Deposit(d)) ==> (sender@ == old(
            state,
        ).info.token@ ==> deposit_fits(*old(state), cw20_msg.amount, d)),
    ensures
        deposit_spec(*old(state), *final(state), sender@, cw20_msg.amount, cw20_msg.msg, r),
{
    let amount = cw20_msg.amount;
    match cw20_msg.msg {
        Some(Cw20HookMsg::Deposit(m)) => {
            let DepositMsg { addr1, addr2 } = m;
            if !(sender == state.info.token) {
                return Err(ContractError::Unauthorized {});
            }
            proof {
                lemma_split_conservation(amount);
            }
            let fee = compute_fee(amount);
            let total_fee = state.fee_collected + fee;
            state.fee_collected = total_fee;
            let send_amount = amount - fee;
            let amount1 = send_amount / 2;
            let amount2 = send_amount - amount1;
            // The first credit is written before the second is read, so one
            // address named as both recipients collects both shares.
            let withdrawable1 = state.withdrawable.get(&addr1);
            state.withdrawable.set(&addr1, withdrawable1 + amount1);
            let withdrawable2 = state.withdrawable.get(&addr2);
            state.withdrawable.set(&addr2, withdrawable2 + amount2);
            Ok(Response { messages: Vec::new() })
        },
        None => Err(ContractError::Unauthorized {}),
    }
}

/// Answer a read-only query. Queries have no side effect: the answer is a
/// pure function of the state, so repeated queries with no intervening
/// mutation return the same value.
pub fn query(state: &ContractState, msg: QueryMsg) -> (r: QueryAnswer)
    ensures
        match msg {
            QueryMsg::Owner() => r matches QueryAnswer::Owner(o) && o@ == state.info.owner@,
            QueryMsg::Withdrawable(m) => r matches QueryAnswer::Withdrawable(a) && a
                == state.withdrawable_of(m.addr@),
        },
{
    match msg {
        QueryMsg::Owner() => QueryAnswer::Owner(get_owner(state)),
        QueryMsg::Withdrawable(m) => QueryAnswer::Withdrawable(withdrawable(state, m)),
    }
}

/// The configured owner's address.
pub fn get_owner(state: &ContractState) -> (owner: String)
    ensures
        owner@ == state.info.owner@,
{
    state.info.owner.clone()
}

/// The withdrawable balance of the queried address, zero when it has none.
pub fn withdrawable(state: &ContractState, msg: WithdrawableMsg) -> (amount: u128)
    ensures
        amount == state.withdrawable_of(msg.addr@),
{
    state.withdrawable.get(&msg.addr)
}

/// Law: a query's answer is decided by the state alone, so two answers that
/// both satisfy [`withdrawable`]'s contract on the same state and address
/// are equal — repeated queries with no intervening mutation agree.
pub proof fn lemma_withdrawable_query_idempotent(
    state: ContractState,
    addr: Seq<char>,
    r1: u128,
    r2: u128,
)
    requires
        r1 == state.withdrawable_of(addr),
        r2 == state.withdrawable_of(addr),
    ensures
        r1 == r2,
{
}

/// Law: a booked deposit conserves value in the state. The fee pool and the
/// credited balances together grow by exactly the deposited amount — no
/// token value is created or destroyed by the split, whether the two
/// recipients are distinct or the same address.
pub proof fn lemma_deposit_conserves_value(
    pre: ContractState,
    post: ContractState,
    sender: Seq<char>,
    amount: u128,
    d: DepositMsg,
    r: Result<Response, ContractError>,
)
    requires
        deposit_spec(pre, post, sender, amount, Some(Cw20HookMsg::Deposit(d)), r),
        r is Ok,
    ensures
        d.addr1@ != d.addr2@ ==> (post.fee_collected - pre.fee_collected) + (
        post.withdrawable_of(d.addr1@) - pre.withdrawable_of(d.addr1@)) + (post.withdrawable_of(
            d.addr2@,
        ) - pre.withdrawable_of(d.addr2@)) == amount,
        d.addr1@ == d.addr2@ ==> (post.fee_collected - pre.fee_collected) + (
        post.withdrawable_of(d.addr2@) - pre.withdrawable_of(d.addr2@)) == amount,
{
    lemma_split_conservation(amount);
}

/// Law: withdrawing exactly the full positive balance succeeds and leaves
/// the balance at zero.
pub proof fn lemma_withdraw_full_drains(
    pre: ContractState,
    post: ContractState,
    sender: Seq<char>,
    r: Result<Response, ContractError>,
)
    requires
        pre.withdrawable_of(sender) > 0,
        settle_spec(pre, post, sender, pre.withdrawable_of(sender), r),
    ensures
        r is Ok,
        post.withdrawable_of(sender) == 0,
{
}

} // verus!
