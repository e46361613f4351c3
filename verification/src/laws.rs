//! What holds of the ledger across calls, proved from the contracts of the
//! calls.

use vstd::prelude::*;
use crate::deposit::{deposit_post, query_post, withdraw_post};
use crate::error::{fails_with, ContractError};
use crate::ledger::{
    attached_fund,
    deposit_outcome,
    held_record,
    withdraw_outcome,
    withdrawal_well_formed,
};
use crate::msg::{DepositResponse, Empty, Response};
use crate::order::{byte_order_is_char_order, chars_before};
use crate::state::{in_range, CoinView, DepositsView};
use crate::store::{
    bytes_before,
    denom_before,
    entry_damaged,
    holds_nothing,
    key_part_fits,
    listing_view,
    lists_owner,
    owner_readable,
    record_at,
    stored_deposits,
    undecodable_entries,
    DepositKey,
};

verus! {

/// The balance that a possibly absent record holds.
pub open spec fn balance_of(record: Option<DepositsView>) -> nat {
    match record {
        Some(record) => record.coins.amount,
        None => 0,
    }
}

/// The count that a possibly absent record holds.
pub open spec fn count_of(record: Option<DepositsView>) -> nat {
    match record {
        Some(record) => record.count,
        None => 0,
    }
}

/// Whether every record lies under its own depositor and denomination.
pub open spec fn records_keyed(entries: Map<DepositKey, DepositsView>) -> bool {
    forall|key: DepositKey| #[trigger]
        entries.contains_key(key) ==> entries[key].owner == key.0 && entries[key].coins.denom
            == key.1
}

/// Whether every record fits the integers that hold it.
pub open spec fn records_in_range(entries: Map<DepositKey, DepositsView>) -> bool {
    forall|key: DepositKey| #[trigger] entries.contains_key(key) ==> in_range(entries[key])
}

/// Whether every coin of `funds` fits the integer that holds its amount.
pub open spec fn funds_in_range(funds: Seq<CoinView>) -> bool {
    forall|i: int| 0 <= i < funds.len() ==> (#[trigger] funds[i]).amount <= u128::MAX
}

/// A deposit followed by a withdrawal of the same amount is never refused
/// by the rules, and leaves the balance and the count where they were
/// before the deposit: for a record that existed, the record itself.
pub proof fn deposit_then_withdraw_restores_record(
    existing: Option<DepositsView>,
    owner: Seq<char>,
    fund: CoinView,
)
    requires
        deposit_outcome(existing, owner, fund) is Ok,
    ensures
        withdraw_outcome(Some(deposit_outcome(existing, owner, fund)->Ok_0), fund.amount) is Ok,
        ({
            let restored = withdraw_outcome(
                Some(deposit_outcome(existing, owner, fund)->Ok_0),
                fund.amount,
            )->Ok_0;
            &&& restored.coins.amount == balance_of(existing)
            &&& restored.count == count_of(existing)
            &&& existing matches Some(record) ==> restored == record
        }),
{
}

/// A deposit that succeeds and a withdrawal of the same fund by the same
/// sender right after it: the withdrawal succeeds, and the store then holds
/// for every key what it held before the deposit, but that a record now
/// exists for the sender and the denomination, with the balance and the
/// count from before the deposit.
pub proof fn deposit_then_withdraw_restores_store<C>(
    before: cosmwasm_std::MemoryStorage,
    between: cosmwasm_std::MemoryStorage,
    after: cosmwasm_std::MemoryStorage,
    namespace: Seq<char>,
    sender: Seq<char>,
    funds: Seq<CoinView>,
    deposited: Result<Response<C>, ContractError>,
    withdrawn: Result<Response<C>, ContractError>,
)
    requires
        deposit_post(before, between, namespace, sender, funds, deposited),
        deposited is Ok,
        withdraw_post(
            between,
            after,
            namespace,
            sender,
            funds[0].amount,
            funds[0].denom,
            withdrawn,
        ),
    ensures
        withdrawn is Ok,
        ({
            let key = (sender, funds[0].denom);
            let old_entries = stored_deposits(before, namespace);
            let new_entries = stored_deposits(after, namespace);
            &&& new_entries.contains_key(key)
            &&& new_entries[key].coins.amount == balance_of(record_at(old_entries, key))
            &&& new_entries[key].count == count_of(record_at(old_entries, key))
            &&& new_entries == old_entries.insert(key, new_entries[key])
            &&& old_entries.contains_key(key) ==> new_entries == old_entries
            &&& undecodable_entries(after, namespace) == undecodable_entries(before, namespace)
        }),
{
    let fund = funds[0];
    let key = (sender, fund.denom);
    let old_entries = stored_deposits(before, namespace);
    assert(attached_fund(sender, funds) == Some(fund));
    let existing = record_at(old_entries, key);
    let record = deposit_outcome(existing, sender, fund)->Ok_0;
    let mid_entries = stored_deposits(between, namespace);
    assert(mid_entries == old_entries.insert(key, record));
    assert(record_at(mid_entries, key) == Some(record));
    deposit_then_withdraw_restores_record(existing, sender, fund);
    let new_entries = stored_deposits(after, namespace);
    let restored = withdraw_outcome(Some(record), fund.amount)->Ok_0;
    assert(new_entries == mid_entries.insert(key, restored));
    assert(new_entries =~= old_entries.insert(key, new_entries[key]));
    if old_entries.contains_key(key) {
        assert(new_entries =~= old_entries);
    }
}

/// A deposit with one positive fund from a sender that fits a key succeeds
/// wherever the stored entry parses or is absent and nothing overflows, and
/// writes the record that [`deposit_outcome`] gives.
pub proof fn valid_deposit_succeeds<C>(
    before: cosmwasm_std::MemoryStorage,
    after: cosmwasm_std::MemoryStorage,
    namespace: Seq<char>,
    sender: Seq<char>,
    funds: Seq<CoinView>,
    result: Result<Response<C>, ContractError>,
)
    requires
        deposit_post(before, after, namespace, sender, funds, result),
        attached_fund(sender, funds) is Some,
        !entry_damaged(before, namespace, sender, funds[0].denom),
        deposit_outcome(
            record_at(stored_deposits(before, namespace), (sender, funds[0].denom)),
            sender,
            funds[0],
        ) is Ok,
    ensures
        result is Ok,
        stored_deposits(after, namespace) == stored_deposits(before, namespace).insert(
            (sender, funds[0].denom),
            deposit_outcome(
                record_at(stored_deposits(before, namespace), (sender, funds[0].denom)),
                sender,
                funds[0],
            )->Ok_0,
        ),
{
}

/// A well-formed withdrawal succeeds exactly when there is a record whose
/// balance covers the amount and whose count is at least one.
pub proof fn withdrawal_succeeds_exactly_when_covered<C>(
    before: cosmwasm_std::MemoryStorage,
    after: cosmwasm_std::MemoryStorage,
    namespace: Seq<char>,
    sender: Seq<char>,
    amount: nat,
    denom: Seq<char>,
    result: Result<Response<C>, ContractError>,
)
    requires
        withdraw_post(before, after, namespace, sender, amount, denom, result),
        withdrawal_well_formed(sender, amount),
    ensures
        result is Ok <==> stored_deposits(before, namespace).contains_key((sender, denom))
            && amount <= stored_deposits(before, namespace)[(sender, denom)].coins.amount
            && stored_deposits(before, namespace)[(sender, denom)].count >= 1,
{
}

/// A deposit that succeeds raises the count by one; the first deposit for a
/// depositor and denomination sets it to one. The balance rises by the
/// amount of the fund.
pub proof fn deposit_counts_one_more(
    existing: Option<DepositsView>,
    owner: Seq<char>,
    fund: CoinView,
)
    requires
        deposit_outcome(existing, owner, fund) is Ok,
    ensures
        deposit_outcome(existing, owner, fund)->Ok_0.count == count_of(existing) + 1,
        existing is None ==> deposit_outcome(existing, owner, fund)->Ok_0.count == 1,
        deposit_outcome(existing, owner, fund)->Ok_0.coins.amount == balance_of(existing)
            + fund.amount,
{
}

/// In the store, a deposit that succeeds leaves a record for the sender and
/// the denomination whose count is one more than before, or one where there
/// was none.
pub proof fn deposit_counts_one_more_in_store<C>(
    before: cosmwasm_std::MemoryStorage,
    after: cosmwasm_std::MemoryStorage,
    namespace: Seq<char>,
    sender: Seq<char>,
    funds: Seq<CoinView>,
    deposited: Result<Response<C>, ContractError>,
)
    requires
        deposit_post(before, after, namespace, sender, funds, deposited),
        deposited is Ok,
    ensures
        ({
            let key = (sender, funds[0].denom);
            let old_entries = stored_deposits(before, namespace);
            let new_entries = stored_deposits(after, namespace);
            &&& new_entries.contains_key(key)
            &&& new_entries[key].count == count_of(record_at(old_entries, key)) + 1
            &&& !old_entries.contains_key(key) ==> new_entries[key].count == 1
        }),
{
    let fund = funds[0];
    let key = (sender, fund.denom);
    let old_entries = stored_deposits(before, namespace);
    assert(attached_fund(sender, funds) == Some(fund));
    deposit_counts_one_more(record_at(old_entries, key), sender, fund);
}

/// A withdrawal succeeds exactly where there is a record whose balance
/// covers the amount and whose count is positive; the balance then drops by
/// the amount and the count by one, so neither can go below zero.
pub proof fn withdrawal_never_goes_negative(existing: Option<DepositsView>, amount: nat)
    ensures
        withdraw_outcome(existing, amount) is Ok <==> existing is Some && amount <= balance_of(
            existing,
        ) && count_of(existing) >= 1,
        withdraw_outcome(existing, amount) matches Ok(record) ==> record.coins.amount
            == balance_of(existing) - amount && record.count == count_of(existing) - 1,
{
}

/// Records that fit their integers still do after a deposit or a
/// withdrawal that succeeds.
pub proof fn updates_stay_in_range(
    existing: Option<DepositsView>,
    owner: Seq<char>,
    fund: CoinView,
    amount: nat,
)
    requires
        existing matches Some(record) ==> in_range(record),
        fund.amount <= u128::MAX,
    ensures
        deposit_outcome(existing, owner, fund) matches Ok(record) ==> in_range(record),
        withdraw_outcome(existing, amount) matches Ok(record) ==> in_range(record),
{
}

/// A call that is refused, whatever the reason, leaves the store exactly as
/// it was.
pub proof fn refused_call_leaves_store<C>(
    before: cosmwasm_std::MemoryStorage,
    after: cosmwasm_std::MemoryStorage,
    namespace: Seq<char>,
    sender: Seq<char>,
    funds: Seq<CoinView>,
    amount: nat,
    denom: Seq<char>,
    result: Result<Response<C>, ContractError>,
)
    requires
        result is Err,
        deposit_post(before, after, namespace, sender, funds, result) || withdraw_post(
            before,
            after,
            namespace,
            sender,
            amount,
            denom,
            result,
        ),
    ensures
        after == before,
{
}

/// A withdrawal of more than the recorded balance is refused with
/// `InsufficientFunds`, and the store, so the record too, is as before.
pub proof fn overdrawn_withdrawal_leaves_record<C>(
    before: cosmwasm_std::MemoryStorage,
    after: cosmwasm_std::MemoryStorage,
    namespace: Seq<char>,
    sender: Seq<char>,
    amount: nat,
    denom: Seq<char>,
    result: Result<Response<C>, ContractError>,
)
    requires
        withdraw_post(before, after, namespace, sender, amount, denom, result),
        key_part_fits(sender),
        stored_deposits(before, namespace).contains_key((sender, denom)),
        amount > stored_deposits(before, namespace)[(sender, denom)].coins.amount,
    ensures
        fails_with(result, ContractError::InsufficientFunds),
        after == before,
        stored_deposits(after, namespace)[(sender, denom)] == stored_deposits(
            before,
            namespace,
        )[(sender, denom)],
{
}

/// Writing a record that lies under its own key and fits its integers keeps
/// every record of the namespace so.
proof fn write_keeps_records_sound(
    old_entries: Map<DepositKey, DepositsView>,
    key: DepositKey,
    record: DepositsView,
)
    ensures
        records_keyed(old_entries) && record.owner == key.0 && record.coins.denom == key.1
            ==> records_keyed(old_entries.insert(key, record)),
        records_in_range(old_entries) && in_range(record) ==> records_in_range(
            old_entries.insert(key, record),
        ),
{
    let new_entries = old_entries.insert(key, record);
    assert forall|k: DepositKey| #[trigger] new_entries.contains_key(k) && k != key implies
        old_entries.contains_key(k) && new_entries[k] == old_entries[k] by {}
}

/// A deposit, refused or not, keeps every record under its own depositor
/// and denomination, keeps every record within its integers, and keeps
/// readable whatever was readable.
pub proof fn deposit_keeps_store_sound<C>(
    before: cosmwasm_std::MemoryStorage,
    after: cosmwasm_std::MemoryStorage,
    namespace: Seq<char>,
    sender: Seq<char>,
    funds: Seq<CoinView>,
    result: Result<Response<C>, ContractError>,
)
    requires
        deposit_post(before, after, namespace, sender, funds, result),
        funds_in_range(funds),
    ensures
        records_keyed(stored_deposits(before, namespace)) ==> records_keyed(
            stored_deposits(after, namespace),
        ),
        records_in_range(stored_deposits(before, namespace)) ==> records_in_range(
            stored_deposits(after, namespace),
        ),
        forall|owner: Seq<char>| #[trigger]
            owner_readable(before, namespace, owner) ==> owner_readable(after, namespace, owner),
{
    let old_entries = stored_deposits(before, namespace);
    if result is Ok {
        let fund = funds[0];
        let key = (sender, fund.denom);
        assert(attached_fund(sender, funds) == Some(fund));
        let record = deposit_outcome(record_at(old_entries, key), sender, fund)->Ok_0;
        write_keeps_records_sound(old_entries, key, record);
    } else {
        assert(after == before);
    }
}

/// A withdrawal, refused or not, keeps every record under its own depositor
/// and denomination, keeps every record within its integers, and keeps
/// readable whatever was readable.
pub proof fn withdrawal_keeps_store_sound<C>(
    before: cosmwasm_std::MemoryStorage,
    after: cosmwasm_std::MemoryStorage,
    namespace: Seq<char>,
    sender: Seq<char>,
    amount: nat,
    denom: Seq<char>,
    result: Result<Response<C>, ContractError>,
)
    requires
        withdraw_post(before, after, namespace, sender, amount, denom, result),
    ensures
        records_keyed(stored_deposits(before, namespace)) ==> records_keyed(
            stored_deposits(after, namespace),
        ),
        records_in_range(stored_deposits(before, namespace)) ==> records_in_range(
            stored_deposits(after, namespace),
        ),
        forall|owner: Seq<char>| #[trigger]
            owner_readable(before, namespace, owner) ==> owner_readable(after, namespace, owner),
{
    let old_entries = stored_deposits(before, namespace);
    if result is Ok {
        let key = (sender, denom);
        let record = withdraw_outcome(record_at(old_entries, key), amount)->Ok_0;
        write_keeps_records_sound(old_entries, key, record);
    } else {
        assert(after == before);
    }
}

/// A ledger under one namespace never changes what the store holds under
/// another namespace.
pub proof fn namespaces_are_isolated<C>(
    before: cosmwasm_std::MemoryStorage,
    after: cosmwasm_std::MemoryStorage,
    namespace: Seq<char>,
    sender: Seq<char>,
    funds: Seq<CoinView>,
    amount: nat,
    denom: Seq<char>,
    result: Result<Response<C>, ContractError>,
    other: Seq<char>,
)
    requires
        deposit_post(before, after, namespace, sender, funds, result) || withdraw_post(
            before,
            after,
            namespace,
            sender,
            amount,
            denom,
            result,
        ),
        other != namespace,
        key_part_fits(other),
    ensures
        stored_deposits(after, other) == stored_deposits(before, other),
        undecodable_entries(after, other) == undecodable_entries(before, other),
{
    if result is Err {
        assert(after == before);
    }
}

/// No byte string comes before itself.
pub proof fn bytes_before_irreflexive(bytes: Seq<u8>)
    ensures
        !bytes_before(bytes, bytes),
    decreases bytes.len(),
{
    if bytes.len() > 0 {
        bytes_before_irreflexive(bytes.drop_first());
    }
}

/// A listing of an owner names exactly the denominations under which the
/// owner has a record, each once, each with the record that the store holds
/// for it, and in strictly ascending lexicographic order of the
/// denominations by their characters.
pub proof fn listing_is_complete_and_exact(
    entries: Map<DepositKey, DepositsView>,
    owner: Seq<char>,
    listing: Seq<(Seq<char>, DepositsView)>,
)
    requires
        lists_owner(entries, owner, listing),
    ensures
        forall|denom: Seq<char>|
            entries.contains_key((owner, denom)) <==> exists|i: int|
                0 <= i < listing.len() && (#[trigger] listing[i]).0 == denom,
        forall|i: int|
            0 <= i < listing.len() ==> (#[trigger] listing[i]).1 == entries[(owner, listing[i].0)],
        forall|i: int, j: int|
            0 <= i < j < listing.len() ==> (#[trigger] listing[i]).0 != (#[trigger] listing[j]).0
                && chars_before(listing[i].0, listing[j].0),
{
    assert forall|denom: Seq<char>|
        (exists|i: int| 0 <= i < listing.len() && (#[trigger] listing[i]).0 == denom)
            implies entries.contains_key((owner, denom)) by {
        let i: int = choose|i: int|
            0 <= i < listing.len() && (#[trigger] listing[i]).0 == denom;
        assert(entries.contains_key((owner, listing[i].0)));
    }
    assert forall|i: int, j: int| 0 <= i < j < listing.len() implies (#[trigger] listing[i]).0 != (
    #[trigger] listing[j]).0 && chars_before(listing[i].0, listing[j].0) by {
        assert(denom_before(listing[i].0, listing[j].0));
        bytes_before_irreflexive(vstd::utf8::encode_utf8(listing[i].0));
        byte_order_is_char_order(listing[i].0, listing[j].0);
    }
}

/// Whether `after` is what one call, with the given arguments and result,
/// makes of `before`: a deposit of `funds` by `sender`, or a withdrawal of
/// `amount` of `denom` by `sender`.
pub open spec fn call_post(
    before: cosmwasm_std::MemoryStorage,
    after: cosmwasm_std::MemoryStorage,
    namespace: Seq<char>,
    sender: Seq<char>,
    funds: Seq<CoinView>,
    amount: nat,
    denom: Seq<char>,
    result: Result<Response<Empty>, ContractError>,
) -> bool {
    ||| deposit_post(before, after, namespace, sender, funds, result) && funds_in_range(funds)
    ||| withdraw_post(before, after, namespace, sender, amount, denom, result)
}

/// Whether one deposit or withdrawal, refused or not, leads from `before`
/// to `after`.
pub open spec fn one_call_apart(
    before: cosmwasm_std::MemoryStorage,
    after: cosmwasm_std::MemoryStorage,
    namespace: Seq<char>,
) -> bool {
    exists|
        sender: Seq<char>,
        funds: Seq<CoinView>,
        amount: nat,
        denom: Seq<char>,
        result: Result<Response<Empty>, ContractError>,
    | #[trigger] call_post(before, after, namespace, sender, funds, amount, denom, result)
}

/// Whether `states` are the successive states of a store through any
/// number of deposits and withdrawals under `namespace`.
pub open spec fn is_history(
    states: Seq<cosmwasm_std::MemoryStorage>,
    namespace: Seq<char>,
) -> bool {
    &&& states.len() > 0
    &&& forall|i: int|
        0 <= i < states.len() - 1 ==> one_call_apart(#[trigger] states[i], states[i + 1], namespace)
}

/// A store that holds nothing is sound under every namespace: it has no
/// record out of place or out of range, and every owner is readable.
pub proof fn empty_store_is_sound(
    store: cosmwasm_std::MemoryStorage,
    namespace: Seq<char>,
    owner: Seq<char>,
    denom: Seq<char>,
)
    requires
        holds_nothing(store),
    ensures
        records_keyed(stored_deposits(store, namespace)),
        records_in_range(stored_deposits(store, namespace)),
        owner_readable(store, namespace, owner),
        !stored_deposits(store, namespace).contains_key((owner, denom)),
        !entry_damaged(store, namespace, owner, denom),
{
    assert(stored_deposits(store, namespace) == crate::store::no_records());
    assert(undecodable_entries(store, namespace) == crate::store::no_entries());
}

/// Through any deposits and withdrawals, a store whose records lie under
/// their own keys and fit their integers stays so, and what was readable
/// stays readable: every state that the calls can reach is sound.
pub proof fn every_reachable_state_is_sound(
    states: Seq<cosmwasm_std::MemoryStorage>,
    namespace: Seq<char>,
)
    requires
        is_history(states, namespace),
    ensures
        records_keyed(stored_deposits(states[0], namespace)) ==> records_keyed(
            stored_deposits(states.last(), namespace),
        ),
        records_in_range(stored_deposits(states[0], namespace)) ==> records_in_range(
            stored_deposits(states.last(), namespace),
        ),
        forall|owner: Seq<char>| #[trigger]
            owner_readable(states[0], namespace, owner) ==> owner_readable(
                states.last(),
                namespace,
                owner,
            ),
    decreases states.len(),
{
    if states.len() > 1 {
        let earlier = states.drop_last();
        assert forall|i: int| 0 <= i < earlier.len() - 1 implies one_call_apart(
            #[trigger] earlier[i],
            earlier[i + 1],
            namespace,
        ) by {
            assert(earlier[i] == states[i]);
            assert(earlier[i + 1] == states[i + 1]);
        }
        every_reachable_state_is_sound(earlier, namespace);
        let before = states[states.len() - 2];
        let after = states.last();
        assert(earlier.last() == before);
        assert(earlier[0] == states[0]);
        assert(one_call_apart(before, states[states.len() - 2 + 1], namespace));
        let (sender, funds, amount, denom, result) = choose|
            sender: Seq<char>,
            funds: Seq<CoinView>,
            amount: nat,
            denom: Seq<char>,
            result: Result<Response<Empty>, ContractError>,
        | #[trigger] call_post(before, after, namespace, sender, funds, amount, denom, result);
        if deposit_post(before, after, namespace, sender, funds, result) && funds_in_range(funds) {
            deposit_keeps_store_sound(before, after, namespace, sender, funds, result);
        } else {
            withdrawal_keeps_store_sound(before, after, namespace, sender, amount, denom, result);
        }
    }
}

/// After any deposits and withdrawals on a store that was readable for
/// `address`, a listing for `address` succeeds where the address fits a
/// key, and holds exactly the records that the store now has for it, each
/// at its current balance and count.
pub proof fn listing_follows_any_updates(
    states: Seq<cosmwasm_std::MemoryStorage>,
    namespace: Seq<char>,
    address: Seq<char>,
    listed: Result<DepositResponse, ContractError>,
)
    requires
        is_history(states, namespace),
        owner_readable(states[0], namespace, address),
        key_part_fits(address),
        query_post(states.last(), namespace, address, listed),
    ensures
        listed matches Ok(response) && lists_owner(
            stored_deposits(states.last(), namespace),
            address,
            listing_view(response.deposits@),
        ),
{
    every_reachable_state_is_sound(states, namespace);
}

} // verus!
