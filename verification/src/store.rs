//! The boundary with the storage crates.
//!
//! The ledger keeps its records in a `cosmwasm_std::MemoryStorage`, through a
//! `cw_storage_plus::Map` keyed by depositor and denomination. Verus cannot
//! look inside either, so this module names what the store holds and states,
//! without proof, what a new store holds and what the three map operations
//! the ledger uses do to a store.
//! Everything else in the crate is proved from these statements.

use vstd::prelude::*;
use vstd::utf8::encode_utf8;
use crate::state::{record_view, Deposits, DepositsView};

verus! {

/// The in-memory key-value store of `cosmwasm_std`, opaque to the verifier.
#[verifier::external_type_specification]
#[verifier::external_body]
pub struct ExMemoryStorage(cosmwasm_std::MemoryStorage);

/// The error type of `cosmwasm_std`, opaque to the verifier.
#[verifier::external_type_specification]
#[verifier::external_body]
pub struct ExStdError(cosmwasm_std::StdError);

/// How a record lies in the store: the count, the depositor and the coins,
/// each in the type `cosmwasm_std` serialises it with.
type StoredRecord = (u64, cosmwasm_std::Addr, cosmwasm_std::Coin);

/// The key of a record: the depositor, then the denomination.
pub type DepositKey = (Seq<char>, Seq<char>);

/// The records that the map under `namespace` can load from `store`: a key
/// is in the domain exactly when the store holds a value at that key and the
/// value parses as a record, and maps to that record. The store holds
/// nothing under a namespace or for a depositor longer than 65535 bytes.
pub uninterp spec fn stored_deposits(
    store: cosmwasm_std::MemoryStorage,
    namespace: Seq<char>,
) -> Map<DepositKey, DepositsView>;

/// The entries that `store` holds under `namespace` and that do not decode.
/// A pair of a depositor and the bytes that follow the depositor in a key
/// is in the set exactly when the store holds a value at that key, and
/// those bytes are not UTF-8, so no denomination, or the value does not
/// parse as a record.
pub uninterp spec fn undecodable_entries(
    store: cosmwasm_std::MemoryStorage,
    namespace: Seq<char>,
) -> Set<(Seq<char>, Seq<u8>)>;

/// The record that `entries` holds at `key`, if any.
pub open spec fn record_at(entries: Map<DepositKey, DepositsView>, key: DepositKey) -> Option<
    DepositsView,
> {
    if entries.contains_key(key) {
        Some(entries[key])
    } else {
        None
    }
}

/// Whether `store` holds at the key of `owner` and `denom` a value that
/// does not parse as a record.
pub open spec fn entry_damaged(
    store: cosmwasm_std::MemoryStorage,
    namespace: Seq<char>,
    owner: Seq<char>,
    denom: Seq<char>,
) -> bool {
    undecodable_entries(store, namespace).contains((owner, encode_utf8(denom)))
}

/// Whether every entry that `store` holds under `namespace` and `owner`
/// decodes.
pub open spec fn owner_readable(
    store: cosmwasm_std::MemoryStorage,
    namespace: Seq<char>,
    owner: Seq<char>,
) -> bool {
    forall|rest: Seq<u8>|
        !(#[trigger] undecodable_entries(store, namespace).contains((owner, rest)))
}

/// The ledger with no record.
pub open spec fn no_records() -> Map<DepositKey, DepositsView> {
    Map::empty()
}

/// The empty set of undecodable entries.
pub open spec fn no_entries() -> Set<(Seq<char>, Seq<u8>)> {
    Set::empty()
}

/// Whether `store` holds no entry of any ledger: no record and nothing
/// undecodable under any namespace.
pub open spec fn holds_nothing(store: cosmwasm_std::MemoryStorage) -> bool {
    &&& forall|namespace: Seq<char>| #[trigger]
        stored_deposits(store, namespace) == no_records()
    &&& forall|namespace: Seq<char>| #[trigger]
        undecodable_entries(store, namespace) == no_entries()
}

/// Whether `part` can be a namespace or a depositor in a storage key, where
/// its length in bytes is written in two bytes.
pub open spec fn key_part_fits(part: Seq<char>) -> bool {
    encode_utf8(part).len() <= 0xFFFF
}

/// Whether `a` comes strictly before `b` in lexicographic byte order.
pub open spec fn bytes_before(a: Seq<u8>, b: Seq<u8>) -> bool
    decreases a.len(),
{
    if b.len() == 0 {
        false
    } else if a.len() == 0 {
        true
    } else if a[0] != b[0] {
        a[0] < b[0]
    } else {
        bytes_before(a.drop_first(), b.drop_first())
    }
}

/// Whether denomination `a` is stored before denomination `b`: the store
/// orders keys by their UTF-8 bytes.
pub open spec fn denom_before(a: Seq<char>, b: Seq<char>) -> bool {
    bytes_before(encode_utf8(a), encode_utf8(b))
}

/// What a listing of pairs of denomination and record stands for.
pub open spec fn listing_view(listing: Seq<(String, Deposits)>) -> Seq<(Seq<char>, DepositsView)> {
    Seq::new(listing.len(), |i: int| (listing[i].0@, listing[i].1@))
}

/// Whether `listing` is exactly what `entries` holds for `owner`: every item
/// is a record of the owner under its denomination, every record of the
/// owner is listed, and the denominations strictly ascend.
pub open spec fn lists_owner(
    entries: Map<DepositKey, DepositsView>,
    owner: Seq<char>,
    listing: Seq<(Seq<char>, DepositsView)>,
) -> bool {
    &&& forall|i: int|
        0 <= i < listing.len() ==> entries.contains_key((owner, (#[trigger] listing[i]).0))
            && entries[(owner, listing[i].0)] == listing[i].1
    &&& forall|denom: Seq<char>| #[trigger]
        entries.contains_key((owner, denom)) ==> exists|i: int|
            0 <= i < listing.len() && (#[trigger] listing[i]).0 == denom
    &&& forall|i: int, j: int|
        0 <= i < j < listing.len() ==> denom_before(
            (#[trigger] listing[i]).0,
            (#[trigger] listing[j]).0,
        )
}

/// `cosmwasm_std::MemoryStorage::new` makes a store with no entry, so with
/// no record and nothing undecodable under any namespace.
pub assume_specification[cosmwasm_std::MemoryStorage::new]() -> (made: cosmwasm_std::MemoryStorage)
    ensures
        forall|namespace: Seq<char>| #[trigger]
            stored_deposits(made, namespace) == no_records(),
        forall|namespace: Seq<char>| #[trigger]
            undecodable_entries(made, namespace) == no_entries(),
;

/// Calls `cw_storage_plus::Map::may_load` at the key `(owner, denom)` of the
/// map under `namespace`. The call fails exactly when the store holds at the
/// key a value that does not parse, which is then no stored record. It
/// otherwise returns the stored record, or none where the store holds
/// nothing at the key. The call panics on a namespace or depositor longer
/// than 65535 bytes, which `requires` excludes.
#[verifier::external_body]
pub(crate) fn load_deposit(
    store: &cosmwasm_std::MemoryStorage,
    namespace: &str,
    owner: &str,
    denom: &str,
) -> (loaded: Result<Option<Deposits>, cosmwasm_std::StdError>)
    requires
        key_part_fits(namespace@),
        key_part_fits(owner@),
    ensures
        loaded is Err <==> undecodable_entries(*store, namespace@).contains(
            (owner@, encode_utf8(denom@)),
        ),
        loaded is Err ==> !stored_deposits(*store, namespace@).contains_key((owner@, denom@)),
        loaded matches Ok(found) ==> record_view(found) == record_at(
            stored_deposits(*store, namespace@),
            (owner@, denom@),
        ),
{
    let ledger = cw_storage_plus::Map::<(&str, &str), StoredRecord>::new(namespace);
    let listed = |(count, holder, coins): StoredRecord| {
        Deposits::from_parts(count, holder.into_string(), coins.denom, coins.amount.u128())
    };
    ledger.may_load(store, (owner, denom)).map(|found| found.map(listed))
}

/// Calls `cw_storage_plus::Map::save` at the key `(owner, denom)` of the map
/// under `namespace`. The call succeeds: the record is a count, an address
/// and a coin, which the JSON serialiser writes without a failing path.
/// Afterwards the key holds `record`, whatever it held, and no other entry
/// of the namespace has changed; a storage key starts with the length and
/// the bytes of its namespace, so nothing under another namespace has
/// changed either. The call panics on a namespace or depositor longer than
/// 65535 bytes, which `requires` excludes; the store panics on an empty
/// value, which the JSON text of a record never is.
#[verifier::external_body]
pub(crate) fn save_deposit(
    store: &mut cosmwasm_std::MemoryStorage,
    namespace: &str,
    owner: &str,
    denom: &str,
    record: &Deposits,
) -> (saved: Result<(), cosmwasm_std::StdError>)
    requires
        key_part_fits(namespace@),
        key_part_fits(owner@),
    ensures
        saved is Ok,
        stored_deposits(*final(store), namespace@) == stored_deposits(
            *old(store),
            namespace@,
        ).insert((owner@, denom@), record@),
        undecodable_entries(*final(store), namespace@) == undecodable_entries(
            *old(store),
            namespace@,
        ).remove((owner@, encode_utf8(denom@))),
        forall|space: Seq<char>|
            space != namespace@ && key_part_fits(space) ==> #[trigger] stored_deposits(
                *final(store),
                space,
            ) == stored_deposits(*old(store), space),
        forall|space: Seq<char>|
            space != namespace@ && key_part_fits(space) ==> #[trigger] undecodable_entries(
                *final(store),
                space,
            ) == undecodable_entries(*old(store), space),
{
    let ledger = cw_storage_plus::Map::<(&str, &str), StoredRecord>::new(namespace);
    let holder = cosmwasm_std::Addr::unchecked(record.owner.as_str());
    let coins = cosmwasm_std::Coin::new(record.coins.amount, record.coins.denom.as_str());
    ledger.save(store, (owner, denom), &(record.count, holder, coins))
}

/// Calls `cw_storage_plus::Map::prefix` with `owner` and `Prefix::range` in
/// ascending order over the whole prefix, and collects the items. The scan
/// succeeds exactly when every entry under the owner decodes, and then
/// yields each stored record of the owner once, with its denomination, in
/// ascending byte order of the denominations. The call panics on a namespace
/// or depositor longer than 65535 bytes, which `requires` excludes.
#[verifier::external_body]
pub(crate) fn scan_deposits(
    store: &cosmwasm_std::MemoryStorage,
    namespace: &str,
    owner: &str,
) -> (scanned: Result<Vec<(String, Deposits)>, cosmwasm_std::StdError>)
    requires
        key_part_fits(namespace@),
        key_part_fits(owner@),
    ensures
        scanned is Ok <==> forall|rest: Seq<u8>|
            !(#[trigger] undecodable_entries(*store, namespace@).contains((owner@, rest))),
        scanned matches Ok(listing) ==> lists_owner(
            stored_deposits(*store, namespace@),
            owner@,
            listing_view(listing@),
        ),
{
    let ledger = cw_storage_plus::Map::<(&str, &str), StoredRecord>::new(namespace);
    let items = ledger.prefix(owner).range(store, None, None, cosmwasm_std::Order::Ascending);
    let listed = |(denom, (count, holder, coins)): (String, StoredRecord)| {
        let amount = coins.amount.u128();
        (denom, Deposits::from_parts(count, holder.into_string(), coins.denom, amount))
    };
    items.map(|item| item.map(listed)).collect()
}

} // verus!
