//! The ledger engine: deposits, withdrawals and the listing of holdings,
//! over a store of records keyed by depositor and denomination.

use std::marker::PhantomData;
use vstd::prelude::*;
use crate::error::{fails_with, ContractError};
use crate::ledger::{
    apply_deposit,
    apply_withdraw,
    attached_fund,
    deposit_outcome,
    fits_key_part,
    held_record,
    single_fund,
    withdraw_outcome,
    withdrawal_well_formed,
};
use crate::msg::{
    coins_view,
    is_deposit_ack,
    is_withdraw_ack,
    BankMsg,
    DepositResponse,
    Empty,
    MessageInfo,
    Response,
};
use crate::state::{Coin, CoinView, Deposits, DepositsView};
use crate::store::{
    entry_damaged,
    holds_nothing,
    key_part_fits,
    listing_view,
    lists_owner,
    load_deposit,
    owner_readable,
    save_deposit,
    scan_deposits,
    stored_deposits,
    undecodable_entries,
    DepositKey,
};
use crate::text::decimal_string;

verus! {

/// A message type of the host's own that a response may carry.
pub trait CustomMsg: Clone + std::fmt::Debug + PartialEq {

}

impl CustomMsg for Empty {

}

/// A full ledger: one that both executes and answers queries.
pub trait DepositNative<C>: DepositNativeExecute<C> + DepositNativeQuery where C: CustomMsg {

}

/// The calls that change a ledger.
pub trait DepositNativeExecute<C> where C: CustomMsg {
    type Err;

    /// Credits the fund attached to the call to its sender.
    fn execute_deposit(
        &self,
        store: &mut cosmwasm_std::MemoryStorage,
        info: MessageInfo,
    ) -> Result<Response<C>, Self::Err>;

    /// Pays `amount` of `denom` back to the sender of the call.
    fn execute_withdraw(
        &self,
        store: &mut cosmwasm_std::MemoryStorage,
        info: MessageInfo,
        amount: u128,
        denom: String,
    ) -> Result<Response<C>, Self::Err>;
}

/// The calls that only read a ledger.
pub trait DepositNativeQuery {
    /// Lists what `address` holds, in ascending order of the denominations.
    fn query_deposits(
        &self,
        store: &cosmwasm_std::MemoryStorage,
        address: String,
    ) -> Result<DepositResponse, ContractError>;
}

/// Whether the entries under every namespace but `namespace` are in `post`
/// what they were in `pre`.
pub open spec fn keeps_other_namespaces(
    pre: cosmwasm_std::MemoryStorage,
    post: cosmwasm_std::MemoryStorage,
    namespace: Seq<char>,
) -> bool {
    &&& forall|space: Seq<char>|
        space != namespace && key_part_fits(space) ==> #[trigger] stored_deposits(post, space)
            == stored_deposits(pre, space)
    &&& forall|space: Seq<char>|
        space != namespace && key_part_fits(space) ==> #[trigger] undecodable_entries(
            post,
            space,
        ) == undecodable_entries(pre, space)
}

/// Whether `post` is `pre` with `record` written at `key` under `namespace`
/// and nothing else changed: no other record of the namespace, no entry
/// that does not decode, and no entry of another namespace.
pub open spec fn writes_record(
    pre: cosmwasm_std::MemoryStorage,
    post: cosmwasm_std::MemoryStorage,
    namespace: Seq<char>,
    key: DepositKey,
    record: DepositsView,
) -> bool {
    &&& stored_deposits(post, namespace) == stored_deposits(pre, namespace).insert(key, record)
    &&& undecodable_entries(post, namespace) == undecodable_entries(pre, namespace)
    &&& keeps_other_namespaces(pre, post, namespace)
}

/// What a deposit does, in this order. A call without exactly one positive
/// fund, or from a sender too long for a key, is `InvalidInput`. An entry
/// for sender and denomination that does not parse is `InvalidState`. An
/// addition that overflows is `ArithmeticOverflow`. Every other call
/// succeeds: the record of sender and denomination becomes what
/// [`deposit_outcome`] gives, nothing else in the store changes, and the
/// response acknowledges the fund. A call that fails leaves the store as it
/// was.
pub open spec fn deposit_post<C>(
    pre: cosmwasm_std::MemoryStorage,
    post: cosmwasm_std::MemoryStorage,
    namespace: Seq<char>,
    sender: Seq<char>,
    funds: Seq<CoinView>,
    result: Result<Response<C>, ContractError>,
) -> bool {
    match attached_fund(sender, funds) {
        None => post == pre && fails_with(result, ContractError::InvalidInput),
        Some(fund) => {
            let key = (sender, fund.denom);
            let damaged = entry_damaged(pre, namespace, sender, fund.denom);
            match held_record(stored_deposits(pre, namespace), damaged, key) {
                Err(refusal) => post == pre && fails_with(result, refusal),
                Ok(existing) => match deposit_outcome(existing, sender, fund) {
                    Err(refusal) => post == pre && fails_with(result, refusal),
                    Ok(record) => {
                        &&& result is Ok
                        &&& writes_record(pre, post, namespace, key, record)
                        &&& is_deposit_ack(result->Ok_0, fund.denom, fund.amount)
                    },
                },
            }
        },
    }
}

/// What a withdrawal does, in this order. A zero amount, or a sender too
/// long for a key, is `InvalidInput`. An entry for sender and denomination
/// that does not parse is `InvalidState`. A missing record is
/// `RecordNotFound`. An amount above the balance is `InsufficientFunds`. A
/// count of zero is `InvalidState`. Every other call succeeds: the record
/// of sender and denomination becomes what [`withdraw_outcome`] gives,
/// nothing else in the store changes, and the response carries the transfer
/// of the amount to the sender. A call that fails leaves the store as it
/// was.
pub open spec fn withdraw_post<C>(
    pre: cosmwasm_std::MemoryStorage,
    post: cosmwasm_std::MemoryStorage,
    namespace: Seq<char>,
    sender: Seq<char>,
    amount: nat,
    denom: Seq<char>,
    result: Result<Response<C>, ContractError>,
) -> bool {
    if !withdrawal_well_formed(sender, amount) {
        post == pre && fails_with(result, ContractError::InvalidInput)
    } else {
        let key = (sender, denom);
        let damaged = entry_damaged(pre, namespace, sender, denom);
        match held_record(stored_deposits(pre, namespace), damaged, key) {
            Err(refusal) => post == pre && fails_with(result, refusal),
            Ok(existing) => match withdraw_outcome(existing, amount) {
                Err(refusal) => post == pre && fails_with(result, refusal),
                Ok(record) => {
                    &&& result is Ok
                    &&& writes_record(pre, post, namespace, key, record)
                    &&& is_withdraw_ack(result->Ok_0, sender, denom, amount)
                },
            },
        }
    }
}

/// What a listing answers. An address too long for a key is `InvalidInput`;
/// a store with an entry under the address that does not decode is
/// `InvalidState`. Otherwise the answer holds exactly the records of the
/// address, each with its denomination, in ascending order of the
/// denominations; it is empty where the address holds nothing.
pub open spec fn query_post(
    store: cosmwasm_std::MemoryStorage,
    namespace: Seq<char>,
    address: Seq<char>,
    result: Result<DepositResponse, ContractError>,
) -> bool {
    if !key_part_fits(address) {
        fails_with(result, ContractError::InvalidInput)
    } else if !owner_readable(store, namespace, address) {
        fails_with(result, ContractError::InvalidState)
    } else {
        result matches Ok(response) && lists_owner(
            stored_deposits(store, namespace),
            address,
            listing_view(response.deposits@),
        )
    }
}

/// A store that holds nothing.
pub fn empty_store() -> (store: cosmwasm_std::MemoryStorage)
    ensures
        holds_nothing(store),
{
    cosmwasm_std::MemoryStorage::new()
}

/// A ledger whose records live under one namespace of the store.
pub struct DepositNativeContract<'a, C> where C: CustomMsg {
    deposits: &'a str,
    _custom_response: PhantomData<C>,
}

impl<'a, C> DepositNativeContract<'a, C> where C: CustomMsg {
    #[verifier::type_invariant]
    spec fn namespace_fits(self) -> bool {
        key_part_fits(self.deposits@)
    }

    /// The namespace under which the records are stored.
    pub closed spec fn namespace(self) -> Seq<char> {
        self.deposits@
    }

    /// The ledger that stores its records under `deposits_key`, which must
    /// fit a storage key: at most 65535 bytes.
    pub fn new(deposits_key: &'a str) -> (contract: Self)
        requires
            key_part_fits(deposits_key@),
        ensures
            contract.namespace() == deposits_key@,
    {
        Self { deposits: deposits_key, _custom_response: PhantomData }
    }

    /// The namespace under which the records are stored.
    pub fn deposits_key(&self) -> (key: &'a str)
        ensures
            key@ == self.namespace(),
            key_part_fits(key@),
    {
        proof {
            use_type_invariant(self);
        }
        self.deposits
    }
}

impl<C> Default for DepositNativeContract<'static, C> where C: CustomMsg {
    /// The ledger under the namespace `"deposits"`.
    fn default() -> (contract: Self)
        ensures
            contract.namespace() == "deposits"@,
    {
        proof {
            reveal_strlit("deposits");
            vstd::utf8::is_ascii_chars_encode_utf8("deposits"@);
        }
        Self::new("deposits")
    }
}

/// The acknowledgement of a deposit of `fund`.
fn deposit_ack<C>(fund: &Coin) -> (response: Response<C>)
    ensures
        is_deposit_ack(response, fund@.denom, fund@.amount),
{
    Response::new().add_attribute("execute", String::from_str("deposit")).add_attribute(
        "denom",
        fund.denom.clone(),
    ).add_attribute("amount", decimal_string(fund.amount))
}

/// The acknowledgement of a withdrawal of `amount` of `denom` by `sender`,
/// with the transfer that pays it out.
fn withdraw_ack<C>(sender: String, amount: u128, denom: String) -> (response: Response<C>)
    ensures
        is_withdraw_ack(response, sender@, denom@, amount as nat),
{
    let mut coins: Vec<Coin> = Vec::new();
    coins.push(Coin::new(amount, denom.clone()));
    let transfer = BankMsg::Send { to_address: sender, amount: coins };
    Response::new().add_attribute("execute", String::from_str("withdraw")).add_attribute(
        "denom",
        denom,
    ).add_attribute("amount", decimal_string(amount)).add_message(transfer)
}

/// The record that a load found, or none where the store holds nothing at
/// the key. A load that fails met an entry that does not parse, which is
/// `InvalidState`.
pub fn loaded_record(
    loaded: Result<Option<Deposits>, cosmwasm_std::StdError>,
) -> (record: Result<Option<Deposits>, ContractError>)
    ensures
        match loaded {
            Ok(found) => record == Ok::<Option<Deposits>, ContractError>(found),
            Err(_) => fails_with(record, ContractError::InvalidState),
        },
{
    match loaded {
        Ok(found) => Ok(found),
        Err(_) => Err(ContractError::InvalidState),
    }
}

/// The answer to a deposit of `fund`, given what the write of the record
/// returned: the acknowledgement where it wrote, `InvalidState` where it
/// did not.
pub fn deposit_answer<C>(
    saved: Result<(), cosmwasm_std::StdError>,
    fund: &Coin,
) -> (answer: Result<Response<C>, ContractError>)
    ensures
        match saved {
            Ok(_) => answer is Ok && is_deposit_ack(answer->Ok_0, fund@.denom, fund@.amount),
            Err(_) => fails_with(answer, ContractError::InvalidState),
        },
{
    match saved {
        Ok(_) => Ok(deposit_ack(fund)),
        Err(_) => Err(ContractError::InvalidState),
    }
}

/// The answer to a withdrawal of `amount` of `denom` by `sender`, given
/// what the write of the record returned: the acknowledgement with the
/// transfer where it wrote, `InvalidState` where it did not.
pub fn withdraw_answer<C>(
    saved: Result<(), cosmwasm_std::StdError>,
    sender: String,
    amount: u128,
    denom: String,
) -> (answer: Result<Response<C>, ContractError>)
    ensures
        match saved {
            Ok(_) => answer is Ok && is_withdraw_ack(
                answer->Ok_0,
                sender@,
                denom@,
                amount as nat,
            ),
            Err(_) => fails_with(answer, ContractError::InvalidState),
        },
{
    match saved {
        Ok(_) => Ok(withdraw_ack(sender, amount, denom)),
        Err(_) => Err(ContractError::InvalidState),
    }
}

/// The answer to a listing, once the store was scanned: the items where
/// the scan succeeded, `InvalidState` where it met an entry it could not
/// decode.
pub fn listing_answer(
    scanned: Result<Vec<(String, Deposits)>, cosmwasm_std::StdError>,
) -> (answer: Result<DepositResponse, ContractError>)
    ensures
        match scanned {
            Ok(listing) => answer is Ok && answer->Ok_0.deposits == listing,
            Err(_) => fails_with(answer, ContractError::InvalidState),
        },
{
    match scanned {
        Ok(deposits) => Ok(DepositResponse { deposits }),
        Err(_) => Err(ContractError::InvalidState),
    }
}

impl<'a, C> DepositNativeExecute<C> for DepositNativeContract<'a, C> where C: CustomMsg {
    type Err = ContractError;

    fn execute_deposit(
        &self,
        store: &mut cosmwasm_std::MemoryStorage,
        info: MessageInfo,
    ) -> (result: Result<Response<C>, ContractError>)
        ensures
            deposit_post(
                *old(store),
                *final(store),
                self.namespace(),
                info.sender@,
                coins_view(info.funds@),
                result,
            ),
    {
        let namespace = self.deposits_key();
        let sender = info.sender.as_str();
        let fund = match single_fund(sender, &info.funds) {
            Some(fund) => fund,
            None => { return Err(ContractError::InvalidInput); },
        };
        let denom = fund.denom.as_str();
        let existing = match loaded_record(load_deposit(store, namespace, sender, denom)) {
            Ok(existing) => existing,
            Err(refusal) => { return Err(refusal); },
        };
        let record = match apply_deposit(existing, sender, fund) {
            Ok(record) => record,
            Err(refusal) => { return Err(refusal); },
        };
        let saved = save_deposit(store, namespace, sender, denom, &record);
        assert(undecodable_entries(*store, namespace@) =~= undecodable_entries(
            *old(store),
            namespace@,
        ));
        deposit_answer(saved, fund)
    }

    fn execute_withdraw(
        &self,
        store: &mut cosmwasm_std::MemoryStorage,
        info: MessageInfo,
        amount: u128,
        denom: String,
    ) -> (result: Result<Response<C>, ContractError>)
        ensures
            withdraw_post(
                *old(store),
                *final(store),
                self.namespace(),
                info.sender@,
                amount as nat,
                denom@,
                result,
            ),
    {
        let namespace = self.deposits_key();
        if !fits_key_part(info.sender.as_str()) || amount == 0 {
            return Err(ContractError::InvalidInput);
        }
        let loaded = load_deposit(store, namespace, info.sender.as_str(), denom.as_str());
        let existing = match loaded_record(loaded) {
            Ok(existing) => existing,
            Err(refusal) => { return Err(refusal); },
        };
        let record = match apply_withdraw(existing, amount) {
            Ok(record) => record,
            Err(refusal) => { return Err(refusal); },
        };
        let saved = save_deposit(store, namespace, info.sender.as_str(), denom.as_str(), &record);
        assert(undecodable_entries(*store, namespace@) =~= undecodable_entries(
            *old(store),
            namespace@,
        ));
        withdraw_answer(saved, info.sender, amount, denom)
    }
}

impl<'a, C> DepositNativeQuery for DepositNativeContract<'a, C> where C: CustomMsg {
    fn query_deposits(
        &self,
        store: &cosmwasm_std::MemoryStorage,
        address: String,
    ) -> (result: Result<DepositResponse, ContractError>)
        ensures
            query_post(*store, self.namespace(), address@, result),
    {
        let namespace = self.deposits_key();
        if !fits_key_part(address.as_str()) {
            return Err(ContractError::InvalidInput);
        }
        listing_answer(scan_deposits(store, namespace, address.as_str()))
    }
}

impl<'a, C> DepositNative<C> for DepositNativeContract<'a, C> where C: CustomMsg {

}

} // verus!
