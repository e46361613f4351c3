//! The persisted record and its mathematical view.

use vstd::prelude::*;

verus! {

/// An amount of one denomination.
#[derive(Clone, Debug, PartialEq, Eq)]
pub struct Coin {
    pub denom: String,
    pub amount: u128,
}

/// What a [`Coin`] stands for.
pub struct CoinView {
    pub denom: Seq<char>,
    pub amount: nat,
}

impl View for Coin {
    type V = CoinView;

    open spec fn view(&self) -> CoinView {
        CoinView { denom: self.denom@, amount: self.amount as nat }
    }
}

/// One depositor's position in one denomination.
#[derive(Clone, Debug, PartialEq, Eq)]
pub struct Deposits {
    /// Deposits folded into this record, less the withdrawals taken from it.
    pub count: u64,
    /// The depositor, the only identity that may withdraw.
    pub owner: String,
    /// The denomination and the current balance.
    pub coins: Coin,
}

/// What a [`Deposits`] record stands for.
pub struct DepositsView {
    pub count: nat,
    pub owner: Seq<char>,
    pub coins: CoinView,
}

impl View for Deposits {
    type V = DepositsView;

    open spec fn view(&self) -> DepositsView {
        DepositsView { count: self.count as nat, owner: self.owner@, coins: self.coins@ }
    }
}

/// What an optional record stands for.
pub open spec fn record_view(record: Option<Deposits>) -> Option<DepositsView> {
    match record {
        Some(record) => Some(record@),
        None => None,
    }
}

/// Whether a record fits the integers that hold it.
pub open spec fn in_range(record: DepositsView) -> bool {
    record.count <= u64::MAX && record.coins.amount <= u128::MAX
}

impl Coin {
    /// A coin of `amount` units of `denom`.
    pub fn new(amount: u128, denom: String) -> (coin: Coin)
        ensures
            coin@ == (CoinView { denom: denom@, amount: amount as nat }),
    {
        Coin { denom, amount }
    }
}

impl Deposits {
    /// The record made of the given parts.
    pub fn from_parts(count: u64, owner: String, denom: String, amount: u128) -> (record: Deposits)
        ensures
            record@ == (DepositsView {
                count: count as nat,
                owner: owner@,
                coins: CoinView { denom: denom@, amount: amount as nat },
            }),
    {
        Deposits { count, owner, coins: Coin { denom, amount } }
    }
}

} // verus!
