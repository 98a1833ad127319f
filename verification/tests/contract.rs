use cosmwasm_std::coins;
use cosmwasm_std::testing::{mock_dependencies_with_balance, mock_env, mock_info};
use try1::contract::{
    execute, get_received_payments, get_sent_payments, instantiate, query, query_count,
    try_claim_payment, try_increment, try_reset, try_revert_payment, try_send_payment,
};
use try1::error::ContractError;
use try1::msg::{
    Attribute, BankMsg, CountResponse, Env, ExecuteMsg, InstantiateMsg, MessageInfo, QueryMsg,
    QueryResponse, Response, Timestamp,
};
use try1::state::{Addr, Coin, Payment};
use try1::store::{PaymentStore, Side};

const T: u64 = 1_700_000_000;

fn addr(text: &str) -> Addr {
    Addr::new(text.to_string()).unwrap()
}

fn coin(amount: u128, denom: &str) -> Coin {
    Coin { denom: denom.to_string(), amount }
}

fn at(seconds: u64) -> Env {
    Env { time: Timestamp::from_seconds(seconds) }
}

fn by(sender: &str, funds: Vec<Coin>) -> MessageInfo {
    MessageInfo { sender: addr(sender), funds }
}

fn info_of(sender: &str, funds: &[cosmwasm_std::Coin]) -> MessageInfo {
    let info = mock_info(sender, funds);
    MessageInfo {
        sender: Addr::new(info.sender.into_string()).unwrap(),
        funds: info.funds.into_iter().map(|c| coin(c.amount.u128(), &c.denom)).collect(),
    }
}

fn env_of(env: cosmwasm_std::Env) -> Env {
    Env { time: Timestamp::from_nanos(env.block.time.nanos()) }
}

fn attribute(key: &str, value: &str) -> Attribute {
    Attribute { key: key.to_string(), value: value.to_string() }
}

fn ledger() -> PaymentStore {
    let mut store = PaymentStore::new();
    instantiate(&mut store, at(T), by("creator", vec![]), InstantiateMsg { count: 0 }).unwrap();
    store
}

fn send(store: &mut PaymentStore, from: &str, to: &str, amount: u128, time_ahead: i32, now: u64) -> Result<Response, ContractError> {
    try_send_payment(addr(to), time_ahead, by(from, vec![coin(amount, "inj")]), at(now), store)
}

fn count(store: &PaymentStore) -> i32 {
    query_count(store).unwrap().count
}

fn payment(from: &str, to: &str, amount: u128, deadline: u64, id: i32) -> Payment {
    Payment {
        sender: addr(from),
        receiver: addr(to),
        amount,
        amount_in_coins: coin(amount, "inj"),
        deadline,
        claimed: false,
        reverted: false,
        payment_id: id,
    }
}

#[test]
fn proper_initialization() {
    let deps = mock_dependencies_with_balance(&coins(2, "token"));
    let mut store = PaymentStore::from_storage(deps.storage);

    let msg = InstantiateMsg { count: 17 };
    let info = info_of("creator", &coins(1000, "earth"));

    let res = instantiate(&mut store, env_of(mock_env()), info, msg).unwrap();
    assert_eq!(0, res.messages.len());

    // the counter starts at zero, whatever count the message carries
    let res = query(&store, env_of(mock_env()), QueryMsg::GetCount {}).unwrap();
    assert_eq!(QueryResponse::Count(CountResponse { count: 0 }), res);
}

#[test]
fn increment() {
    let deps = mock_dependencies_with_balance(&coins(2, "token"));
    let mut store = PaymentStore::from_storage(deps.storage);

    let msg = InstantiateMsg { count: 17 };
    let info = info_of("creator", &coins(2, "token"));
    let _res = instantiate(&mut store, env_of(mock_env()), info, msg).unwrap();

    let info = info_of("anyone", &coins(2, "token"));
    let msg = ExecuteMsg::Increment {};
    let res = execute(&mut store, env_of(mock_env()), info, msg).unwrap();
    assert_eq!(res.attributes, vec![attribute("method", "try_increment")]);

    // only a payment moves the counter
    let res = query(&store, env_of(mock_env()), QueryMsg::GetCount {}).unwrap();
    assert_eq!(QueryResponse::Count(CountResponse { count: 0 }), res);
}

#[test]
fn reset() {
    let deps = mock_dependencies_with_balance(&coins(2, "token"));
    let mut store = PaymentStore::from_storage(deps.storage);

    let msg = InstantiateMsg { count: 17 };
    let info = info_of("creator", &coins(2, "token"));
    let _res = instantiate(&mut store, env_of(mock_env()), info, msg).unwrap();

    let unauth_info = info_of("anyone", &coins(2, "token"));
    let msg = ExecuteMsg::Reset { count: 5 };
    let res = execute(&mut store, env_of(mock_env()), unauth_info, msg).unwrap();
    assert_eq!(res.attributes, vec![attribute("method", "reset")]);

    let auth_info = info_of("creator", &coins(2, "token"));
    let msg = ExecuteMsg::Reset { count: 5 };
    let _res = execute(&mut store, env_of(mock_env()), auth_info, msg).unwrap();

    // ids are never handed out twice, so no request sets the counter
    let res = query(&store, env_of(mock_env()), QueryMsg::GetCount {}).unwrap();
    assert_eq!(QueryResponse::Count(CountResponse { count: 0 }), res);
}

#[test]
fn instantiate_leaves_its_record() {
    let mut store = PaymentStore::new();
    let res = instantiate(&mut store, at(T), by("creator", vec![]), InstantiateMsg { count: 9 })
        .unwrap();
    assert_eq!(
        res,
        Response {
            messages: vec![],
            attributes: vec![
                attribute("method", "instantiate"),
                attribute("owner", "creator"),
                attribute("count", "0"),
            ],
        }
    );
}

#[test]
fn send_then_claim_then_revert_fails() {
    let mut store = ledger();

    let res = send(&mut store, "S", "R", 50, 100, T).unwrap();
    assert_eq!(
        res,
        Response {
            messages: vec![],
            attributes: vec![
                attribute("method", "try_send_payment"),
                attribute("receiver", "R"),
                attribute("time_ahead", "100"),
                attribute("sender", "S"),
                attribute("amount", "50"),
                attribute("payment_id", "1"),
            ],
        }
    );
    assert_eq!(count(&store), 1);
    let expected = payment("S", "R", 50, T + 100, 1);
    assert_eq!(store.get(Side::Sent, &addr("S"), 1), Ok(expected.clone()));
    assert_eq!(store.get(Side::Received, &addr("R"), 1), Ok(expected.clone()));

    let res = try_claim_payment(1, by("R", vec![]), at(T + 50), &mut store).unwrap();
    assert_eq!(
        res,
        Response {
            messages: vec![BankMsg::Send {
                to_address: "R".to_string(),
                amount: vec![coin(50, "inj")],
            }],
            attributes: vec![attribute("method", "try_claim_payment")],
        }
    );
    let mut claimed = expected;
    claimed.claimed = true;
    assert_eq!(store.get(Side::Sent, &addr("S"), 1), Ok(claimed.clone()));
    assert_eq!(store.get(Side::Received, &addr("R"), 1), Ok(claimed));

    let res = try_revert_payment(1, by("S", vec![]), at(T + 50), &mut store);
    assert_eq!(res, Err(ContractError::AlreadyClaimed));
}

#[test]
fn send_with_no_time_ahead_is_refused() {
    let mut store = ledger();
    assert_eq!(send(&mut store, "S", "R", 50, 0, T), Err(ContractError::InvalidDeadline));
    assert_eq!(send(&mut store, "S", "R", 50, -1, T), Err(ContractError::InvalidDeadline));
    assert_eq!(send(&mut store, "S", "R", 50, i32::MIN, T), Err(ContractError::InvalidDeadline));
    assert_eq!(count(&store), 0);
    assert_eq!(get_sent_payments(addr("S"), &store), Ok(vec![]));
}

#[test]
fn send_without_funds_is_refused() {
    let mut store = ledger();
    let res = try_send_payment(addr("R"), 100, by("S", vec![]), at(T), &mut store);
    assert_eq!(res, Err(ContractError::ZeroPayment));
    assert_eq!(count(&store), 0);
    assert_eq!(get_received_payments(addr("R"), &store), Ok(vec![]));
}

#[test]
fn send_to_oneself_is_refused() {
    let mut store = ledger();
    assert_eq!(send(&mut store, "S", "S", 50, 100, T), Err(ContractError::InvalidRecipient));
    assert_eq!(count(&store), 0);
}

#[test]
fn send_checks_come_in_order() {
    let mut store = PaymentStore::new();
    // no counter, no funds, no time ahead, receiver is the sender
    let res = try_send_payment(addr("S"), 0, by("S", vec![]), at(T), &mut store);
    assert_eq!(res, Err(ContractError::InvalidRecipient));
    let res = try_send_payment(addr("R"), 0, by("S", vec![]), at(T), &mut store);
    assert_eq!(res, Err(ContractError::InvalidDeadline));
    let res = try_send_payment(addr("R"), 1, by("S", vec![]), at(T), &mut store);
    assert_eq!(res, Err(ContractError::ZeroPayment));
    let res = send(&mut store, "S", "R", 5, 1, T);
    assert_eq!(res, Err(ContractError::StorageCorruption));
}

#[test]
fn late_claim_is_refused_and_revert_still_goes_through() {
    let mut store = ledger();
    send(&mut store, "S", "R", 50, 100, T).unwrap();

    let res = try_claim_payment(1, by("R", vec![]), at(T + 150), &mut store);
    assert_eq!(res, Err(ContractError::DeadlineExpired));
    assert_eq!(store.get(Side::Received, &addr("R"), 1), Ok(payment("S", "R", 50, T + 100, 1)));

    let res = try_revert_payment(1, by("S", vec![]), at(T + 150), &mut store).unwrap();
    assert_eq!(
        res,
        Response {
            messages: vec![BankMsg::Send {
                to_address: "S".to_string(),
                amount: vec![coin(50, "inj")],
            }],
            attributes: vec![
                attribute("method", "try_revert_payment"),
                attribute("coin", "50inj"),
            ],
        }
    );
    let mut reverted = payment("S", "R", 50, T + 100, 1);
    reverted.reverted = true;
    assert_eq!(store.get(Side::Sent, &addr("S"), 1), Ok(reverted.clone()));
    assert_eq!(store.get(Side::Received, &addr("R"), 1), Ok(reverted));
}

#[test]
fn claim_at_the_deadline_goes_through() {
    let mut store = ledger();
    send(&mut store, "S", "R", 50, 100, T).unwrap();
    assert!(try_claim_payment(1, by("R", vec![]), at(T + 100), &mut store).is_ok());

    send(&mut store, "S", "R", 50, 100, T).unwrap();
    let res = try_claim_payment(2, by("R", vec![]), at(T + 101), &mut store);
    assert_eq!(res, Err(ContractError::DeadlineExpired));
}

#[test]
fn ids_go_up_by_one_from_one() {
    let mut store = ledger();
    assert_eq!(count(&store), 0);
    for expected in 1..=5 {
        let res = send(&mut store, "S", "R", 7, 10, T).unwrap();
        assert_eq!(res.attributes[5], attribute("payment_id", &expected.to_string()));
        assert_eq!(count(&store), expected);
    }
    // a refused send assigns nothing
    assert!(send(&mut store, "S", "S", 7, 10, T).is_err());
    assert_eq!(count(&store), 5);
    let res = send(&mut store, "A", "B", 7, 10, T).unwrap();
    assert_eq!(res.attributes[5], attribute("payment_id", "6"));
}

#[test]
fn a_new_payment_shows_on_both_sides() {
    let mut store = ledger();
    send(&mut store, "S", "R", 50, 100, T).unwrap();
    send(&mut store, "S", "Q", 60, 200, T).unwrap();
    send(&mut store, "R", "S", 70, 300, T).unwrap();

    assert_eq!(
        get_sent_payments(addr("S"), &store),
        Ok(vec![payment("S", "R", 50, T + 100, 1), payment("S", "Q", 60, T + 200, 2)])
    );
    assert_eq!(
        get_received_payments(addr("R"), &store),
        Ok(vec![payment("S", "R", 50, T + 100, 1)])
    );
    assert_eq!(
        get_received_payments(addr("Q"), &store),
        Ok(vec![payment("S", "Q", 60, T + 200, 2)])
    );
    assert_eq!(get_sent_payments(addr("R"), &store), Ok(vec![payment("R", "S", 70, T + 300, 3)]));
    assert_eq!(
        get_received_payments(addr("S"), &store),
        Ok(vec![payment("R", "S", 70, T + 300, 3)])
    );
    assert_eq!(get_sent_payments(addr("Q"), &store), Ok(vec![]));
}

#[test]
fn claim_fails_with_the_matching_error() {
    let mut store = ledger();
    send(&mut store, "S", "R", 50, 100, T).unwrap();
    send(&mut store, "S", "R", 50, 100, T).unwrap();
    send(&mut store, "S", "R", 50, 100, T).unwrap();

    // no such payment
    let res = try_claim_payment(9, by("R", vec![]), at(T), &mut store);
    assert_eq!(res, Err(ContractError::NotFound));
    let res = try_claim_payment(0, by("R", vec![]), at(T), &mut store);
    assert_eq!(res, Err(ContractError::NotFound));
    let res = try_claim_payment(-1, by("R", vec![]), at(T), &mut store);
    assert_eq!(res, Err(ContractError::NotFound));
    // not the receiver
    let res = try_claim_payment(1, by("S", vec![]), at(T), &mut store);
    assert_eq!(res, Err(ContractError::NotFound));
    let res = try_claim_payment(1, by("X", vec![]), at(T), &mut store);
    assert_eq!(res, Err(ContractError::NotFound));
    // claimed before, even after the deadline
    try_claim_payment(1, by("R", vec![]), at(T), &mut store).unwrap();
    let res = try_claim_payment(1, by("R", vec![]), at(T + 500), &mut store);
    assert_eq!(res, Err(ContractError::AlreadyClaimed));
    // reverted before, even after the deadline
    try_revert_payment(2, by("S", vec![]), at(T), &mut store).unwrap();
    let res = try_claim_payment(2, by("R", vec![]), at(T + 500), &mut store);
    assert_eq!(res, Err(ContractError::AlreadyReverted));
    // too late
    let res = try_claim_payment(3, by("R", vec![]), at(T + 101), &mut store);
    assert_eq!(res, Err(ContractError::DeadlineExpired));
    // in time
    assert!(try_claim_payment(3, by("R", vec![]), at(T + 99), &mut store).is_ok());
}

#[test]
fn revert_fails_with_the_matching_error() {
    let mut store = ledger();
    send(&mut store, "S", "R", 50, 100, T).unwrap();
    send(&mut store, "S", "R", 50, 100, T).unwrap();

    let res = try_revert_payment(9, by("S", vec![]), at(T), &mut store);
    assert_eq!(res, Err(ContractError::NotFound));
    // not the sender
    let res = try_revert_payment(1, by("R", vec![]), at(T), &mut store);
    assert_eq!(res, Err(ContractError::NotFound));
    // claimed before
    try_claim_payment(1, by("R", vec![]), at(T), &mut store).unwrap();
    let res = try_revert_payment(1, by("S", vec![]), at(T), &mut store);
    assert_eq!(res, Err(ContractError::AlreadyClaimed));
    // the deadline plays no part
    assert!(try_revert_payment(2, by("S", vec![]), at(T + 10_000), &mut store).is_ok());
    let res = try_revert_payment(2, by("S", vec![]), at(T), &mut store);
    assert_eq!(res, Err(ContractError::AlreadyReverted));
}

#[test]
fn second_claim_and_second_revert_fail() {
    let mut store = ledger();
    send(&mut store, "S", "R", 50, 100, T).unwrap();
    send(&mut store, "S", "R", 50, 100, T).unwrap();

    assert!(try_claim_payment(1, by("R", vec![]), at(T + 1), &mut store).is_ok());
    let after_first = store.get(Side::Received, &addr("R"), 1);
    let res = try_claim_payment(1, by("R", vec![]), at(T + 1), &mut store);
    assert_eq!(res, Err(ContractError::AlreadyClaimed));
    assert_eq!(store.get(Side::Received, &addr("R"), 1), after_first);

    assert!(try_revert_payment(2, by("S", vec![]), at(T + 1), &mut store).is_ok());
    let after_first = store.get(Side::Sent, &addr("S"), 2);
    let res = try_revert_payment(2, by("S", vec![]), at(T + 1), &mut store);
    assert_eq!(res, Err(ContractError::AlreadyReverted));
    assert_eq!(store.get(Side::Sent, &addr("S"), 2), after_first);
}

#[test]
fn both_copies_change_together() {
    let mut store = ledger();
    send(&mut store, "S", "R", 50, 100, T).unwrap();
    send(&mut store, "S", "R", 80, 100, T).unwrap();
    send(&mut store, "S", "Q", 90, 100, T).unwrap();

    try_claim_payment(1, by("R", vec![]), at(T), &mut store).unwrap();
    try_revert_payment(2, by("S", vec![]), at(T), &mut store).unwrap();

    let sent = get_sent_payments(addr("S"), &store).unwrap();
    let received = get_received_payments(addr("R"), &store).unwrap();
    assert_eq!(sent.len(), 3);
    assert_eq!(received.len(), 2);
    assert_eq!(sent[0], received[0]);
    assert_eq!(sent[1], received[1]);
    assert!(sent[0].claimed && !sent[0].reverted);
    assert!(!sent[1].claimed && sent[1].reverted);
    // the third payment is untouched
    assert_eq!(sent[2], payment("S", "Q", 90, T + 100, 3));
    assert_eq!(get_received_payments(addr("Q"), &store), Ok(vec![payment("S", "Q", 90, T + 100, 3)]));
}

#[test]
fn only_the_first_coin_counts() {
    let mut store = ledger();
    let info = by("S", vec![coin(5, "inj"), coin(9, "atom")]);
    try_send_payment(addr("R"), 10, info, at(T), &mut store).unwrap();
    let stored = store.get(Side::Sent, &addr("S"), 1).unwrap();
    assert_eq!(stored.amount, 5);
    assert_eq!(stored.amount_in_coins, coin(5, "inj"));
}

#[test]
fn large_amounts_and_late_times_are_kept_exactly() {
    let mut store = ledger();
    let late = u64::MAX / 1_000_000_000;
    let info = by("S", vec![coin(u128::MAX, "inj")]);
    let res = try_send_payment(addr("R"), i32::MAX, info, at(late), &mut store).unwrap();
    assert_eq!(res.attributes[2], attribute("time_ahead", "2147483647"));
    assert_eq!(
        res.attributes[4],
        attribute("amount", "340282366920938463463374607431768211455")
    );
    let stored = store.get(Side::Received, &addr("R"), 1).unwrap();
    assert_eq!(stored.amount, u128::MAX);
    assert_eq!(stored.deadline, late + 2_147_483_647);
    assert!(stored.deadline > late);
}

#[test]
fn execute_dispatches_each_request() {
    let mut store = ledger();
    let msg = ExecuteMsg::SendPayment { receiver: addr("R"), time_ahead: 100 };
    let res = execute(&mut store, at(T), by("S", vec![coin(50, "inj")]), msg).unwrap();
    assert_eq!(res.attributes[0], attribute("method", "try_send_payment"));
    let msg = ExecuteMsg::SendPayment { receiver: addr("R"), time_ahead: 100 };
    execute(&mut store, at(T), by("S", vec![coin(50, "inj")]), msg).unwrap();

    let msg = ExecuteMsg::ClaimPayment { payment_id: 1 };
    let res = execute(&mut store, at(T), by("R", vec![]), msg).unwrap();
    assert_eq!(res.attributes[0], attribute("method", "try_claim_payment"));

    let msg = ExecuteMsg::RevertPayment { payment_id: 2 };
    let res = execute(&mut store, at(T), by("S", vec![]), msg).unwrap();
    assert_eq!(res.attributes[0], attribute("method", "try_revert_payment"));

    let msg = ExecuteMsg::RevertPayment { payment_id: 1 };
    assert_eq!(
        execute(&mut store, at(T), by("S", vec![]), msg),
        Err(ContractError::AlreadyClaimed)
    );
    let before = count(&store);
    assert!(try_increment(&mut store).is_ok());
    assert!(try_reset(&mut store, by("S", vec![]), 5).is_ok());
    assert_eq!(count(&store), before);
}

#[test]
fn query_answers_each_request() {
    let mut store = ledger();
    send(&mut store, "S", "R", 50, 100, T).unwrap();

    assert_eq!(
        query(&store, at(T), QueryMsg::GetCount {}),
        Ok(QueryResponse::Count(CountResponse { count: 1 }))
    );
    assert_eq!(
        query(&store, at(T), QueryMsg::GetSentPayments { sender: addr("S") }),
        Ok(QueryResponse::Payments(Ok(vec![payment("S", "R", 50, T + 100, 1)])))
    );
    assert_eq!(
        query(&store, at(T), QueryMsg::GetReceivedPayments { receiver: addr("R") }),
        Ok(QueryResponse::Payments(Ok(vec![payment("S", "R", 50, T + 100, 1)])))
    );
    assert_eq!(
        query(&store, at(T), QueryMsg::GetReceivedPayments { receiver: addr("S") }),
        Ok(QueryResponse::Payments(Ok(vec![])))
    );
}

#[test]
fn query_without_a_counter() {
    let store = PaymentStore::new();
    assert_eq!(query(&store, at(T), QueryMsg::GetCount {}), Err(ContractError::StorageCorruption));
    assert_eq!(
        query(&store, at(T), QueryMsg::GetSentPayments { sender: addr("S") }),
        Ok(QueryResponse::Payments(Err("Storage is corrupted".to_string())))
    );
    assert_eq!(
        query(&store, at(T), QueryMsg::GetReceivedPayments { receiver: addr("S") }),
        Ok(QueryResponse::Payments(Err("Storage is corrupted".to_string())))
    );
    assert_eq!(get_sent_payments(addr("S"), &store), Err(ContractError::StorageCorruption));
}
