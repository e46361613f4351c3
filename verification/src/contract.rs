//! The three entry points of the ledger, over the namespace `"deposits"`.

use vstd::prelude::*;
use crate::deposit::{
    deposit_post,
    query_post,
    withdraw_post,
    DepositNativeContract,
    DepositNativeExecute,
    DepositNativeQuery,
};
use crate::error::ContractError;
use crate::msg::{
    coins_view,
    DepositResponse,
    Empty,
    ExecuteMsg,
    InstantiateMsg,
    MessageInfo,
    QueryMsg,
    Response,
};

verus! {

/// What [`execute`] does with `msg`: a deposit or a withdrawal under the
/// namespace `"deposits"`.
pub open spec fn execute_post(
    pre: cosmwasm_std::MemoryStorage,
    post: cosmwasm_std::MemoryStorage,
    info: MessageInfo,
    msg: ExecuteMsg,
    result: Result<Response<Empty>, ContractError>,
) -> bool {
    match msg {
        ExecuteMsg::Deposit {  } => deposit_post(
            pre,
            post,
            "deposits"@,
            info.sender@,
            coins_view(info.funds@),
            result,
        ),
        ExecuteMsg::Withdraw { amount, denom } => withdraw_post(
            pre,
            post,
            "deposits"@,
            info.sender@,
            amount as nat,
            denom@,
            result,
        ),
    }
}

/// Sets the ledger up. There is nothing to set up: the store is left as it
/// is and the response is empty.
pub fn instantiate(
    store: &mut cosmwasm_std::MemoryStorage,
    info: MessageInfo,
    msg: InstantiateMsg,
) -> (result: Result<Response<Empty>, ContractError>)
    ensures
        *final(store) == *old(store),
        result matches Ok(response) && response.messages@.len() == 0
            && response.attributes@.len() == 0,
{
    Ok(Response::new())
}

/// Carries out a request that changes the ledger, on behalf of the sender
/// in `info`.
pub fn execute(
    store: &mut cosmwasm_std::MemoryStorage,
    info: MessageInfo,
    msg: ExecuteMsg,
) -> (result: Result<Response<Empty>, ContractError>)
    ensures
        execute_post(*old(store), *final(store), info, msg, result),
{
    let contract = DepositNativeContract::<Empty>::default();
    match msg {
        ExecuteMsg::Deposit {  } => contract.execute_deposit(store, info),
        ExecuteMsg::Withdraw { amount, denom } => contract.execute_withdraw(
            store,
            info,
            amount,
            denom,
        ),
    }
}

/// Answers a request that only reads the ledger.
pub fn query(
    store: &cosmwasm_std::MemoryStorage,
    msg: QueryMsg,
) -> (result: Result<DepositResponse, ContractError>)
    ensures
        match msg {
            QueryMsg::Deposits { address } => query_post(*store, "deposits"@, address@, result),
        },
{
    let contract = DepositNativeContract::<Empty>::default();
    match msg {
        QueryMsg::Deposits { address } => contract.query_deposits(store, address),
    }
}

} // verus!
