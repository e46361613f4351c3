//! The requests the ledger takes and the answers it gives.

use vstd::prelude::*;
use crate::state::{Coin, CoinView, Deposits};
use crate::text::decimal_text;

verus! {

/// The custom message of a host that has none.
#[derive(Clone, Debug, PartialEq, Eq)]
pub struct Empty {}

/// The request that sets the ledger up. It carries nothing.
#[derive(Clone, Debug, PartialEq, Eq)]
pub struct InstantiateMsg {}

/// A request that changes the ledger.
#[derive(Clone, Debug, PartialEq, Eq)]
pub enum ExecuteMsg {
    /// Credit the attached fund to the caller.
    Deposit {  },
    /// Pay `amount` of `denom` back to the caller.
    Withdraw { amount: u128, denom: String },
}

/// A request that only reads the ledger.
#[derive(Clone, Debug, PartialEq, Eq)]
pub enum QueryMsg {
    /// List what `address` holds.
    Deposits { address: String },
}

/// The holdings of one depositor, each with its denomination.
#[derive(Clone, Debug, PartialEq, Eq)]
pub struct DepositResponse {
    pub deposits: Vec<(String, Deposits)>,
}

/// Who calls, and what value the call carries.
#[derive(Clone, Debug, PartialEq, Eq)]
pub struct MessageInfo {
    pub sender: String,
    pub funds: Vec<Coin>,
}

/// A named value in a response.
#[derive(Clone, Debug, PartialEq, Eq)]
pub struct Attribute {
    pub key: String,
    pub value: String,
}

/// An instruction to the host's bank.
#[derive(Clone, Debug, PartialEq, Eq)]
pub enum BankMsg {
    /// Move `amount` out of the ledger's custody to `to_address`.
    Send { to_address: String, amount: Vec<Coin> },
}

/// An instruction to the host.
#[derive(Clone, Debug, PartialEq, Eq)]
pub enum CosmosMsg<C> {
    Bank(BankMsg),
    Custom(C),
}

/// What a successful call hands to the host: instructions to carry out
/// after the call's own changes, and attributes that describe the call.
#[derive(Clone, Debug, PartialEq, Eq)]
pub struct Response<C> {
    pub messages: Vec<CosmosMsg<C>>,
    pub attributes: Vec<Attribute>,
}

/// What a sequence of coins stands for.
pub open spec fn coins_view(coins: Seq<Coin>) -> Seq<CoinView> {
    Seq::new(coins.len(), |i: int| coins[i]@)
}

/// Whether `attribute` has the given key and value.
pub open spec fn attribute_is(attribute: Attribute, key: Seq<char>, value: Seq<char>) -> bool {
    attribute.key@ == key && attribute.value@ == value
}

/// Whether `attributes` are the three that describe `action` on `amount` of
/// `denom`: the action, the denomination, and the amount in decimal.
pub open spec fn describes(
    attributes: Seq<Attribute>,
    action: Seq<char>,
    denom: Seq<char>,
    amount: nat,
) -> bool {
    &&& attributes.len() == 3
    &&& attribute_is(attributes[0], "execute"@, action)
    &&& attribute_is(attributes[1], "denom"@, denom)
    &&& attribute_is(attributes[2], "amount"@, decimal_text(amount))
}

/// Whether `message` tells the bank to send exactly `amount` of `denom` to
/// `recipient`.
pub open spec fn is_transfer<C>(
    message: CosmosMsg<C>,
    recipient: Seq<char>,
    denom: Seq<char>,
    amount: nat,
) -> bool {
    message matches CosmosMsg::Bank(BankMsg::Send { to_address, amount: coins })
        && to_address@ == recipient && coins@.len() == 1 && coins@[0]@ == (CoinView {
        denom,
        amount,
    })
}

/// Whether `response` acknowledges a deposit of `amount` of `denom`: the
/// three attributes, and no instruction.
pub open spec fn is_deposit_ack<C>(response: Response<C>, denom: Seq<char>, amount: nat) -> bool {
    &&& describes(response.attributes@, "deposit"@, denom, amount)
    &&& response.messages@.len() == 0
}

/// Whether `response` acknowledges a withdrawal of `amount` of `denom` by
/// `recipient`: the three attributes, and the one transfer to the recipient.
pub open spec fn is_withdraw_ack<C>(
    response: Response<C>,
    recipient: Seq<char>,
    denom: Seq<char>,
    amount: nat,
) -> bool {
    &&& describes(response.attributes@, "withdraw"@, denom, amount)
    &&& response.messages@.len() == 1
    &&& is_transfer(response.messages@[0], recipient, denom, amount)
}

impl Attribute {
    /// The attribute with the given key and value.
    pub fn new(key: &str, value: String) -> (attribute: Attribute)
        ensures
            attribute_is(attribute, key@, value@),
    {
        Attribute { key: String::from_str(key), value }
    }
}

impl<C> Response<C> {
    /// The response with no instruction and no attribute.
    pub fn new() -> (response: Response<C>)
        ensures
            response.messages@.len() == 0,
            response.attributes@.len() == 0,
    {
        Response { messages: Vec::new(), attributes: Vec::new() }
    }

    /// Appends an attribute.
    pub fn add_attribute(self, key: &str, value: String) -> (response: Response<C>)
        ensures
            response.messages == self.messages,
            response.attributes@.len() == self.attributes@.len() + 1,
            response.attributes@.drop_last() == self.attributes@,
            attribute_is(response.attributes@.last(), key@, value@),
    {
        let mut response = self;
        response.attributes.push(Attribute::new(key, value));
        assert(response.attributes@.drop_last() =~= self.attributes@);
        response
    }

    /// Appends an instruction to the bank.
    pub fn add_message(self, message: BankMsg) -> (response: Response<C>)
        ensures
            response.attributes == self.attributes,
            response.messages@ == self.messages@.push(CosmosMsg::Bank(message)),
    {
        let mut response = self;
        response.messages.push(CosmosMsg::Bank(message));
        response
    }
}

} // verus!
