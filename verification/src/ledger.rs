//! The rules of the ledger, as functions from a record to the next record.
//!
//! Nothing here touches a store: a caller reads the record, applies one of
//! these functions, and writes the result.

use vstd::prelude::*;
use crate::error::ContractError;
use crate::msg::coins_view;
use crate::state::{record_view, Coin, CoinView, Deposits, DepositsView};
use crate::store::{key_part_fits, DepositKey};

verus! {

/// What the outcome of an update stands for.
pub open spec fn outcome_view(outcome: Result<Deposits, ContractError>) -> Result<
    DepositsView,
    ContractError,
> {
    match outcome {
        Ok(record) => Ok(record@),
        Err(error) => Err(error),
    }
}

/// The record to update at `key`: the stored record, if there is one;
/// `InvalidState` where the store holds at the key an entry that does not
/// parse; none otherwise.
pub open spec fn held_record(
    entries: Map<DepositKey, DepositsView>,
    damaged: bool,
    key: DepositKey,
) -> Result<Option<DepositsView>, ContractError> {
    if entries.contains_key(key) {
        Ok(Some(entries[key]))
    } else if damaged {
        Err(ContractError::InvalidState)
    } else {
        Ok(None)
    }
}

/// The fund that a deposit by `sender` credits: the one attached coin, where
/// exactly one is attached, its amount is positive, and the sender fits a
/// storage key.
pub open spec fn attached_fund(sender: Seq<char>, funds: Seq<CoinView>) -> Option<CoinView> {
    if key_part_fits(sender) && funds.len() == 1 && funds[0].amount > 0 {
        Some(funds[0])
    } else {
        None
    }
}

/// Whether a withdrawal of `amount` by `sender` is well formed: the amount
/// is positive and the sender fits a storage key.
pub open spec fn withdrawal_well_formed(sender: Seq<char>, amount: nat) -> bool {
    key_part_fits(sender) && amount > 0
}

/// The record after `owner` deposits `fund`. A first deposit creates the
/// record with a count of one. A later one adds to the balance and to the
/// count, and overflows where either would leave its integer.
pub open spec fn deposit_outcome(
    existing: Option<DepositsView>,
    owner: Seq<char>,
    fund: CoinView,
) -> Result<DepositsView, ContractError> {
    match existing {
        None => Ok(DepositsView { count: 1, owner, coins: fund }),
        Some(record) => if record.coins.amount + fund.amount > u128::MAX || record.count + 1
            > u64::MAX {
            Err(ContractError::ArithmeticOverflow)
        } else {
            Ok(
                DepositsView {
                    count: record.count + 1,
                    owner: record.owner,
                    coins: CoinView {
                        denom: record.coins.denom,
                        amount: record.coins.amount + fund.amount,
                    },
                },
            )
        },
    }
}

/// The record after a withdrawal of `amount`. There must be a record, its
/// balance must cover the amount, and its count must be positive; the
/// balance drops by the amount and the count by one.
pub open spec fn withdraw_outcome(existing: Option<DepositsView>, amount: nat) -> Result<
    DepositsView,
    ContractError,
> {
    match existing {
        None => Err(ContractError::RecordNotFound),
        Some(record) => if amount > record.coins.amount {
            Err(ContractError::InsufficientFunds)
        } else if record.count == 0 {
            Err(ContractError::InvalidState)
        } else {
            Ok(
                DepositsView {
                    count: (record.count - 1) as nat,
                    owner: record.owner,
                    coins: CoinView {
                        denom: record.coins.denom,
                        amount: (record.coins.amount - amount) as nat,
                    },
                },
            )
        },
    }
}

/// Whether `part` fits a storage key as a namespace or a depositor.
pub fn fits_key_part(part: &str) -> (fits: bool)
    ensures
        fits == key_part_fits(part@),
{
    part.as_bytes().len() <= 0xFFFF
}

/// Picks the fund that a deposit by `sender` credits.
pub fn single_fund<'a>(sender: &str, funds: &'a Vec<Coin>) -> (fund: Option<&'a Coin>)
    ensures
        match fund {
            Some(coin) => attached_fund(sender@, coins_view(funds@)) == Some(coin@),
            None => attached_fund(sender@, coins_view(funds@)) is None,
        },
{
    if fits_key_part(sender) && funds.len() == 1 && funds[0].amount > 0 {
        Some(&funds[0])
    } else {
        None
    }
}

/// Applies a deposit of `fund` by `owner` to the record read from the store.
pub fn apply_deposit(
    existing: Option<Deposits>,
    owner: &str,
    fund: &Coin,
) -> (updated: Result<Deposits, ContractError>)
    ensures
        outcome_view(updated) == deposit_outcome(record_view(existing), owner@, fund@),
{
    match existing {
        None => Ok(
            Deposits::from_parts(1, String::from_str(owner), fund.denom.clone(), fund.amount),
        ),
        Some(record) => match record.coins.amount.checked_add(fund.amount) {
            None => Err(ContractError::ArithmeticOverflow),
            Some(amount) => match record.count.checked_add(1) {
                None => Err(ContractError::ArithmeticOverflow),
                Some(count) => Ok(
                    Deposits::from_parts(count, record.owner, record.coins.denom, amount),
                ),
            },
        },
    }
}

/// Applies a withdrawal of `amount` to the record read from the store.
pub fn apply_withdraw(
    existing: Option<Deposits>,
    amount: u128,
) -> (updated: Result<Deposits, ContractError>)
    ensures
        outcome_view(updated) == withdraw_outcome(record_view(existing), amount as nat),
{
    match existing {
        None => Err(ContractError::RecordNotFound),
        Some(record) => match record.coins.amount.checked_sub(amount) {
            None => Err(ContractError::InsufficientFunds),
            Some(balance) => match record.count.checked_sub(1) {
                None => Err(ContractError::InvalidState),
                Some(count) => Ok(
                    Deposits::from_parts(count, record.owner, record.coins.denom, balance),
                ),
            },
        },
    }
}

} // verus!
