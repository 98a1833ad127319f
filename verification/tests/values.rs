use try1::error::ContractError;
use try1::msg::{Attribute, BankMsg, Response, Timestamp};
use try1::state::{Addr, Coin};
use try1::text::decimal_string;

#[test]
fn decimal_numerals() {
    assert_eq!(decimal_string(0), "0");
    assert_eq!(decimal_string(7), "7");
    assert_eq!(decimal_string(9), "9");
    assert_eq!(decimal_string(10), "10");
    assert_eq!(decimal_string(50), "50");
    assert_eq!(decimal_string(1234567890), "1234567890");
    assert_eq!(decimal_string(1_000_000), "1000000");
    assert_eq!(decimal_string(u128::MAX), "340282366920938463463374607431768211455");
    for n in [0u128, 1, 9, 10, 11, 99, 100, 101, 4096, 65535, u64::MAX as u128] {
        assert_eq!(decimal_string(n), n.to_string());
    }
}

#[test]
fn coin_as_text() {
    let coin = Coin::new(50, "inj".to_string());
    assert_eq!(coin, Coin { denom: "inj".to_string(), amount: 50 });
    assert_eq!(coin.render(), "50inj");
    assert_eq!(Coin::new(0, "".to_string()).render(), "0");
    assert_eq!(Coin::new(12, "u atom".to_string()).render(), "12u atom");
    // as the coin of the host writes itself
    assert_eq!(coin.render(), cosmwasm_std::Coin::new(50, "inj").to_string());
    assert_eq!(coin.clone(), coin);
}

#[test]
fn address_length_is_counted_in_bytes() {
    assert!(Addr::new(String::new()).is_some());
    assert!(Addr::new("creator".to_string()).is_some());
    assert!(Addr::new("a".repeat(0xFFFF)).is_some());
    assert!(Addr::new("a".repeat(0x10000)).is_none());
    // 'é' takes two bytes: 32767 of them fit, with one byte to spare
    assert!(Addr::new("é".repeat(32767)).is_some());
    assert!(Addr::new("é".repeat(32767) + "a").is_some());
    assert!(Addr::new("é".repeat(32768)).is_none());
}

#[test]
fn address_keeps_its_text() {
    let addr = Addr::new("creator".to_string()).unwrap();
    assert_eq!(addr.as_str(), "creator");
    assert_eq!(addr.clone(), addr);
    assert!(addr.same(&addr.clone()));
    assert!(!addr.same(&Addr::new("Creator".to_string()).unwrap()));
    assert_eq!(addr.into_string(), "creator");
}

#[test]
fn timestamp_in_seconds() {
    assert_eq!(Timestamp::from_nanos(0).seconds(), 0);
    assert_eq!(Timestamp::from_nanos(999_999_999).seconds(), 0);
    assert_eq!(Timestamp::from_nanos(1_000_000_000).seconds(), 1);
    assert_eq!(Timestamp::from_nanos(1_571_797_419_879_305_533).seconds(), 1_571_797_419);
    assert_eq!(Timestamp::from_nanos(u64::MAX).seconds(), 18_446_744_073);
    assert_eq!(Timestamp::from_seconds(12).nanos, 12_000_000_000);
    assert_eq!(Timestamp::from_seconds(12).seconds(), 12);
    // as the timestamp of the host counts
    let host = cosmwasm_std::Timestamp::from_nanos(1_571_797_419_879_305_533);
    assert_eq!(Timestamp::from_nanos(host.nanos()).seconds(), host.seconds());
}

#[test]
fn every_error_has_its_sentence() {
    assert_eq!(
        ContractError::InvalidRecipient.message(),
        "Sender and receiver cannot be the same"
    );
    assert_eq!(ContractError::InvalidDeadline.message(), "Deadline must be in the future");
    assert_eq!(
        ContractError::ZeroPayment.message(),
        "Payment amount must be greater than zero"
    );
    assert_eq!(ContractError::NotFound.message(), "Payment not found");
    assert_eq!(ContractError::AlreadyClaimed.message(), "Payment has already been claimed");
    assert_eq!(ContractError::AlreadyReverted.message(), "Payment has already been reverted");
    assert_eq!(ContractError::DeadlineExpired.message(), "Payment deadline has passed!");
    assert_eq!(ContractError::StorageCorruption.message(), "Storage is corrupted");
}

#[test]
fn response_is_built_in_order() {
    let send = BankMsg::Send { to_address: "R".to_string(), amount: vec![Coin::new(1, "inj".to_string())] };
    let response = Response::new()
        .add_attribute("a", "1".to_string())
        .add_message(send)
        .add_attribute("b", "2".to_string());
    assert_eq!(
        response,
        Response {
            messages: vec![BankMsg::Send {
                to_address: "R".to_string(),
                amount: vec![Coin { denom: "inj".to_string(), amount: 1 }],
            }],
            attributes: vec![
                Attribute { key: "a".to_string(), value: "1".to_string() },
                Attribute { key: "b".to_string(), value: "2".to_string() },
            ],
        }
    );
    assert_eq!(Response::new(), Response { messages: vec![], attributes: vec![] });
}
