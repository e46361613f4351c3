use cosmwasm_std::StdError;
use deposit_native::deposit::{deposit_answer, listing_answer, loaded_record, withdraw_answer};
use deposit_native::ledger::{apply_deposit, apply_withdraw, fits_key_part, single_fund};
use deposit_native::msg::{Attribute, BankMsg, CosmosMsg, DepositResponse, Empty, Response};
use deposit_native::state::{Coin, Deposits};
use deposit_native::text::decimal_string;
use deposit_native::ContractError;

fn record(count: u64, owner: &str, denom: &str, amount: u128) -> Deposits {
    Deposits::from_parts(count, owner.to_string(), denom.to_string(), amount)
}

#[test]
fn decimal_string_writes_exact_digits() {
    assert_eq!(decimal_string(0), "0");
    assert_eq!(decimal_string(7), "7");
    assert_eq!(decimal_string(9), "9");
    assert_eq!(decimal_string(10), "10");
    assert_eq!(decimal_string(100000), "100000");
    assert_eq!(decimal_string(1234567890), "1234567890");
    assert_eq!(decimal_string(u128::MAX), "340282366920938463463374607431768211455");
    assert_eq!(decimal_string(u128::MAX), u128::MAX.to_string());
}

#[test]
fn apply_deposit_creates_then_adds() {
    let fund = Coin::new(100, "utest".to_string());
    let first = apply_deposit(None, "alice", &fund).unwrap();
    assert_eq!(first, record(1, "alice", "utest", 100));
    let second = apply_deposit(Some(first), "alice", &fund).unwrap();
    assert_eq!(second, record(2, "alice", "utest", 200));
}

#[test]
fn apply_deposit_keeps_owner_and_denom_of_the_record() {
    let fund = Coin::new(1, "other".to_string());
    let updated = apply_deposit(Some(record(4, "bob", "utest", 9)), "alice", &fund).unwrap();
    assert_eq!(updated, record(5, "bob", "utest", 10));
}

#[test]
fn apply_deposit_overflows_on_balance_and_on_count() {
    let one = Coin::new(1, "utest".to_string());
    assert_eq!(
        apply_deposit(Some(record(1, "a", "utest", u128::MAX)), "a", &one),
        Err(ContractError::ArithmeticOverflow)
    );
    assert_eq!(
        apply_deposit(Some(record(u64::MAX, "a", "utest", 0)), "a", &one),
        Err(ContractError::ArithmeticOverflow)
    );
    assert_eq!(
        apply_deposit(Some(record(u64::MAX - 1, "a", "utest", u128::MAX - 1)), "a", &one),
        Ok(record(u64::MAX, "a", "utest", u128::MAX))
    );
}

#[test]
fn apply_withdraw_checks_record_balance_and_count_in_turn() {
    assert_eq!(apply_withdraw(None, 1), Err(ContractError::RecordNotFound));
    assert_eq!(
        apply_withdraw(Some(record(1, "a", "utest", 5)), 6),
        Err(ContractError::InsufficientFunds)
    );
    assert_eq!(
        apply_withdraw(Some(record(0, "a", "utest", 5)), 6),
        Err(ContractError::InsufficientFunds)
    );
    assert_eq!(
        apply_withdraw(Some(record(0, "a", "utest", 5)), 5),
        Err(ContractError::InvalidState)
    );
    assert_eq!(
        apply_withdraw(Some(record(3, "a", "utest", 5)), 5),
        Ok(record(2, "a", "utest", 0))
    );
    assert_eq!(
        apply_withdraw(Some(record(3, "a", "utest", 5)), 2),
        Ok(record(2, "a", "utest", 3))
    );
}

#[test]
fn withdrawal_undoes_deposit_on_a_record() {
    let start = record(4, "alice", "utest", 250);
    let fund = Coin::new(33, "utest".to_string());
    let mid = apply_deposit(Some(start.clone()), "alice", &fund).unwrap();
    assert_eq!(mid, record(5, "alice", "utest", 283));
    assert_eq!(apply_withdraw(Some(mid), 33), Ok(start));
    let fresh = apply_deposit(None, "alice", &fund).unwrap();
    assert_eq!(apply_withdraw(Some(fresh), 33), Ok(record(0, "alice", "utest", 0)));
}

#[test]
fn single_fund_wants_one_positive_coin() {
    let none: Vec<Coin> = vec![];
    let one = vec![Coin::new(5, "utest".to_string())];
    let zero = vec![Coin::new(0, "utest".to_string())];
    let two = vec![Coin::new(5, "utest".to_string()), Coin::new(6, "uatom".to_string())];
    assert_eq!(single_fund("alice", &none), None);
    assert_eq!(single_fund("alice", &one), Some(&one[0]));
    assert_eq!(single_fund("alice", &zero), None);
    assert_eq!(single_fund("alice", &two), None);
    assert_eq!(single_fund(&"a".repeat(65536), &one), None);
    assert_eq!(single_fund(&"a".repeat(65535), &one), Some(&one[0]));
}

#[test]
fn fits_key_part_counts_bytes() {
    assert!(fits_key_part(""));
    assert!(fits_key_part("deposits"));
    assert!(fits_key_part(&"x".repeat(65535)));
    assert!(!fits_key_part(&"x".repeat(65536)));
    assert!(fits_key_part(&"\u{e9}".repeat(32767)));
    assert!(!fits_key_part(&"\u{e9}".repeat(32768)));
}

#[test]
fn response_collects_attributes_and_messages_in_order() {
    let transfer = BankMsg::Send {
        to_address: "alice".to_string(),
        amount: vec![Coin::new(1, "utest".to_string())],
    };
    let response = Response::<Empty>::new()
        .add_attribute("a", "1".to_string())
        .add_message(transfer.clone())
        .add_attribute("b", "2".to_string());
    assert_eq!(
        response.attributes,
        vec![Attribute::new("a", "1".to_string()), Attribute::new("b", "2".to_string())]
    );
    assert_eq!(response.messages, vec![CosmosMsg::Bank(transfer)]);
    assert_eq!(Attribute::new("k", "v".to_string()).key, "k");
}

#[test]
fn records_are_made_of_their_parts() {
    let coin = Coin::new(3, "utest".to_string());
    assert_eq!(coin.amount, 3);
    assert_eq!(coin.denom, "utest");
    let rec = record(2, "alice", "utest", 3);
    assert_eq!(rec.count, 2);
    assert_eq!(rec.owner, "alice");
    assert_eq!(rec.coins, coin);
}

#[test]
fn loaded_record_tells_absence_from_damage() {
    assert_eq!(
        loaded_record(Ok(Some(record(1, "a", "utest", 5)))),
        Ok(Some(record(1, "a", "utest", 5)))
    );
    assert_eq!(loaded_record(Ok(None)), Ok(None));
    assert_eq!(
        loaded_record(Err(StdError::generic_err("damaged"))),
        Err(ContractError::InvalidState)
    );
}

#[test]
fn deposit_answer_acknowledges_or_reports_the_store() {
    let fund = Coin::new(100000, "utest".to_string());
    let answer = deposit_answer::<Empty>(Ok(()), &fund).unwrap();
    assert_eq!(
        answer,
        Response {
            messages: vec![],
            attributes: vec![
                Attribute::new("execute", "deposit".to_string()),
                Attribute::new("denom", "utest".to_string()),
                Attribute::new("amount", "100000".to_string()),
            ],
        }
    );
    assert_eq!(
        deposit_answer::<Empty>(Err(StdError::generic_err("full")), &fund),
        Err(ContractError::InvalidState)
    );
}

#[test]
fn withdraw_answer_carries_the_transfer_or_reports_the_store() {
    let answer =
        withdraw_answer::<Empty>(Ok(()), "alice".to_string(), 40000, "utest".to_string()).unwrap();
    assert_eq!(
        answer,
        Response {
            messages: vec![CosmosMsg::Bank(BankMsg::Send {
                to_address: "alice".to_string(),
                amount: vec![Coin::new(40000, "utest".to_string())],
            })],
            attributes: vec![
                Attribute::new("execute", "withdraw".to_string()),
                Attribute::new("denom", "utest".to_string()),
                Attribute::new("amount", "40000".to_string()),
            ],
        }
    );
    assert_eq!(
        withdraw_answer::<Empty>(
            Err(StdError::generic_err("full")),
            "alice".to_string(),
            40000,
            "utest".to_string()
        ),
        Err(ContractError::InvalidState)
    );
}

#[test]
fn listing_answer_hands_on_the_items_or_reports_the_store() {
    let items = vec![("utest".to_string(), record(1, "a", "utest", 5))];
    assert_eq!(listing_answer(Ok(items.clone())), Ok(DepositResponse { deposits: items }));
    assert_eq!(listing_answer(Ok(vec![])), Ok(DepositResponse { deposits: vec![] }));
    assert_eq!(
        listing_answer(Err(StdError::generic_err("damaged"))),
        Err(ContractError::InvalidState)
    );
}
