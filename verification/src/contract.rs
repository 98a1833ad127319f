//! The operations of the escrow on a `PaymentStore`.

use crate::error::ContractError;
use crate::laws::{
    law_claim_keeps_coherent, law_instantiate_is_coherent, law_revert_keeps_coherent,
    law_send_keeps_coherent,
};
use crate::msg::{
    coins_data, BankMsg, CountResponse, Env, ExecuteMsg, InstantiateMsg, MessageInfo, QueryMsg,
    QueryResponse, Response,
};
use crate::rules::{
    claim_outcome, execute_outcome, instantiate_outcome, noted, revert_outcome, send_outcome,
    settles, CONTRACT_NAME, CONTRACT_VERSION,
};
use crate::state::{Addr, Payment};
use crate::store::{PaymentStore, Side};
use crate::text::decimal_string;
use vstd::prelude::*;

verus! {

/// Takes an unclaimed payment back: the caller must be its sender. The
/// payment is marked reverted in both indexes, and the response orders its
/// coin back to the caller. The deadline is not looked at.
pub fn try_revert_payment(
    payment_id: i32,
    info: MessageInfo,
    _env: Env,
    store: &mut PaymentStore,
) -> (r: Result<Response, ContractError>)
    ensures
        settles(
            old(store)@,
            final(store)@,
            r,
            revert_outcome(old(store)@, info.sender@, payment_id as int),
        ),
        final(store).unreadable().subset_of(old(store).unreadable()),
        old(store).intact() ==> final(store).intact(),
        old(store)@.coherent() ==> final(store)@.coherent(),
{
    proof {
        if revert_outcome(old(store)@, info.sender@, payment_id as int) is Ok {
            if old(store)@.coherent() {
                law_revert_keeps_coherent(old(store)@, info.sender@, payment_id as int);
            }
        }
    }
    let payment = match store.get(Side::Sent, &info.sender, payment_id) {
        Ok(payment) => payment,
        Err(e) => {
            return Err(e);
        },
    };
    if !payment.sender.same(&info.sender) {
        return Err(ContractError::NotFound);
    }
    if payment.claimed {
        return Err(ContractError::AlreadyClaimed);
    }
    if payment.reverted {
        return Err(ContractError::AlreadyReverted);
    }
    let new_payment = Payment {
        sender: payment.sender.clone(),
        receiver: payment.receiver.clone(),
        amount: payment.amount,
        amount_in_coins: payment.amount_in_coins.clone(),
        deadline: payment.deadline,
        claimed: payment.claimed,
        reverted: true,
        payment_id: payment.payment_id,
    };
    store.put(payment_id, &new_payment);

    let coin_text = payment.amount_in_coins.render();
    let ghost coin = payment@.amount_in_coins;
    let mut amount = Vec::new();
    amount.push(payment.amount_in_coins);
    assert(coins_data(amount@) =~= seq![coin]);
    let send_message = BankMsg::Send { to_address: info.sender.into_string(), amount };
    let response = Response::new()
        .add_attribute("method", "try_revert_payment".to_owned())
        .add_message(send_message)
        .add_attribute("coin", coin_text);
    proof {
        let expected = revert_outcome(old(store)@, info.sender@, payment_id as int);
        assert(expected is Ok);
        assert(response@.messages =~= expected->Ok_0.response.messages);
        assert(response@.attributes =~= expected->Ok_0.response.attributes);
        assert(final(store)@ =~= expected->Ok_0.state);
    }
    Ok(response)
}

/// Pays a payment out: the caller must be its receiver and the deadline must
/// not have passed. The payment is marked claimed in both indexes, and the
/// response orders its coin to the caller.
pub fn try_claim_payment(
    payment_id: i32,
    info: MessageInfo,
    env: Env,
    store: &mut PaymentStore,
) -> (r: Result<Response, ContractError>)
    ensures
        settles(
            old(store)@,
            final(store)@,
            r,
            claim_outcome(old(store)@, info.sender@, payment_id as int, env.time.spec_seconds()),
        ),
        final(store).unreadable().subset_of(old(store).unreadable()),
        old(store).intact() ==> final(store).intact(),
        old(store)@.coherent() ==> final(store)@.coherent(),
{
    proof {
        let now = env.time.spec_seconds();
        if claim_outcome(old(store)@, info.sender@, payment_id as int, now) is Ok {
            if old(store)@.coherent() {
                law_claim_keeps_coherent(old(store)@, info.sender@, payment_id as int, now);
            }
        }
    }
    let payment = match store.get(Side::Received, &info.sender, payment_id) {
        Ok(payment) => payment,
        Err(e) => {
            return Err(e);
        },
    };
    if !payment.receiver.same(&info.sender) {
        return Err(ContractError::NotFound);
    }
    if payment.claimed {
        return Err(ContractError::AlreadyClaimed);
    }
    if payment.reverted {
        return Err(ContractError::AlreadyReverted);
    }
    if env.time.seconds() > payment.deadline {
        return Err(ContractError::DeadlineExpired);
    }
    let new_payment = Payment {
        sender: payment.sender.clone(),
        receiver: payment.receiver.clone(),
        amount: payment.amount,
        amount_in_coins: payment.amount_in_coins.clone(),
        deadline: payment.deadline,
        claimed: true,
        reverted: payment.reverted,
        payment_id: payment.payment_id,
    };
    store.put(payment_id, &new_payment);

    let ghost coin = payment@.amount_in_coins;
    let mut amount = Vec::new();
    amount.push(payment.amount_in_coins);
    assert(coins_data(amount@) =~= seq![coin]);
    let send_message = BankMsg::Send { to_address: info.sender.into_string(), amount };
    let response = Response::new()
        .add_attribute("method", "try_claim_payment".to_owned())
        .add_message(send_message);
    proof {
        let expected = claim_outcome(
            old(store)@,
            info.sender@,
            payment_id as int,
            env.time.spec_seconds(),
        );
        assert(expected is Ok);
        assert(response@.messages =~= expected->Ok_0.response.messages);
        assert(response@.attributes =~= expected->Ok_0.response.attributes);
        assert(final(store)@ =~= expected->Ok_0.state);
    }
    Ok(response)
}

/// Sets `receiver` a payment aside: the funds attached to the call, to be
/// claimed within `time_ahead` seconds from now. The payment gets the next
/// id, which the response names, and is written to both indexes. Nothing is
/// written unless every check has passed.
pub fn try_send_payment(
    receiver: Addr,
    time_ahead: i32,
    info: MessageInfo,
    env: Env,
    store: &mut PaymentStore,
) -> (r: Result<Response, ContractError>)
    ensures
        settles(
            old(store)@,
            final(store)@,
            r,
            send_outcome(
                old(store)@,
                info.sender@,
                receiver@,
                coins_data(info.funds@),
                time_ahead as int,
                env.time.spec_seconds(),
            ),
        ),
        final(store).unreadable().subset_of(old(store).unreadable()),
        old(store).intact() ==> final(store).intact(),
        old(store)@.coherent() ==> final(store)@.coherent(),
{
    proof {
        use_type_invariant(&info.sender);
        use_type_invariant(&receiver);
        let expected = send_outcome(
            old(store)@,
            info.sender@,
            receiver@,
            coins_data(info.funds@),
            time_ahead as int,
            env.time.spec_seconds(),
        );
        if expected is Ok && old(store)@.coherent() {
            law_send_keeps_coherent(
                old(store)@,
                info.sender@,
                receiver@,
                coins_data(info.funds@),
                time_ahead as int,
                env.time.spec_seconds(),
            );
        }
    }
    if info.sender.same(&receiver) {
        return Err(ContractError::InvalidRecipient);
    }
    if time_ahead <= 0 {
        return Err(ContractError::InvalidDeadline);
    }
    if info.funds.len() == 0 {
        return Err(ContractError::ZeroPayment);
    }
    let deadline: u64 = env.time.seconds() + time_ahead as u64;
    let coin = info.funds[0].clone();
    let amount: u128 = coin.amount;

    let payment_id = match store.next_id() {
        Ok(id) => id,
        Err(e) => {
            return Err(e);
        },
    };
    let payment = Payment {
        sender: info.sender.clone(),
        receiver: receiver.clone(),
        amount,
        amount_in_coins: coin,
        deadline,
        claimed: false,
        reverted: false,
        payment_id,
    };
    store.put(payment_id, &payment);

    let response = Response::new()
        .add_attribute("method", "try_send_payment".to_owned())
        .add_attribute("receiver", receiver.into_string())
        .add_attribute("time_ahead", decimal_string(time_ahead as u128))
        .add_attribute("sender", info.sender.into_string())
        .add_attribute("amount", decimal_string(amount))
        .add_attribute("payment_id", decimal_string(payment_id as u128));
    proof {
        let expected = send_outcome(
            old(store)@,
            info.sender@,
            receiver@,
            coins_data(info.funds@),
            time_ahead as int,
            env.time.spec_seconds(),
        );
        assert(expected is Ok);
        assert(response@.messages =~= expected->Ok_0.response.messages);
        assert(response@.attributes =~= expected->Ok_0.response.attributes);
        assert(final(store)@ =~= expected->Ok_0.state);
    }
    Ok(response)
}

/// Does nothing but leave its name in the response.
pub fn try_increment(store: &mut PaymentStore) -> (r: Result<Response, ContractError>)
    ensures
        settles(old(store)@, final(store)@, r, Ok(noted(old(store)@, "try_increment"@))),
        final(store).unreadable() == old(store).unreadable(),
{
    let response = Response::new().add_attribute("method", "try_increment".to_owned());
    assert(response@.attributes =~= noted(old(store)@, "try_increment"@).response.attributes);
    Ok(response)
}

/// Does nothing but leave its name in the response.
pub fn try_reset(
    store: &mut PaymentStore,
    _info: MessageInfo,
    _count: i32,
) -> (r: Result<Response, ContractError>)
    ensures
        settles(old(store)@, final(store)@, r, Ok(noted(old(store)@, "reset"@))),
        final(store).unreadable() == old(store).unreadable(),
{
    let response = Response::new().add_attribute("method", "reset".to_owned());
    assert(response@.attributes =~= noted(old(store)@, "reset"@).response.attributes);
    Ok(response)
}

/// Sets the ledger up: writes the contract name and version and starts the
/// counter at zero.
pub fn instantiate(
    store: &mut PaymentStore,
    _env: Env,
    info: MessageInfo,
    _msg: InstantiateMsg,
) -> (r: Result<Response, ContractError>)
    ensures
        settles(old(store)@, final(store)@, r, Ok(instantiate_outcome(old(store)@, info.sender@))),
        final(store).unreadable() == old(store).unreadable(),
        old(store).intact() ==> final(store).intact(),
        old(store)@.sent.is_empty() && old(store)@.received.is_empty() ==> final(store)@.coherent(),
{
    proof {
        if old(store)@.sent.is_empty() && old(store)@.received.is_empty() {
            law_instantiate_is_coherent(old(store)@, info.sender@);
        }
    }
    store.set_version(CONTRACT_NAME, CONTRACT_VERSION);
    store.reset_counter();
    let curr_payment_id: u128 = 0;

    let response = Response::new()
        .add_attribute("method", "instantiate".to_owned())
        .add_attribute("owner", info.sender.into_string())
        .add_attribute("count", decimal_string(curr_payment_id));
    proof {
        let expected = instantiate_outcome(old(store)@, info.sender@);
        assert(response@.attributes =~= expected.response.attributes);
        assert(final(store)@ =~= expected.state);
    }
    Ok(response)
}

/// Carries a request out on the ledger.
pub fn execute(
    store: &mut PaymentStore,
    env: Env,
    info: MessageInfo,
    msg: ExecuteMsg,
) -> (r: Result<Response, ContractError>)
    ensures
        settles(
            old(store)@,
            final(store)@,
            r,
            execute_outcome(
                old(store)@,
                msg,
                info.sender@,
                coins_data(info.funds@),
                env.time.spec_seconds(),
            ),
        ),
        final(store).unreadable().subset_of(old(store).unreadable()),
        old(store).intact() ==> final(store).intact(),
        old(store)@.coherent() ==> final(store)@.coherent(),
{
    match msg {
        ExecuteMsg::Increment {  } => try_increment(store),
        ExecuteMsg::Reset { count } => try_reset(store, info, count),
        ExecuteMsg::SendPayment { receiver, time_ahead } => try_send_payment(
            receiver,
            time_ahead,
            info,
            env,
            store,
        ),
        ExecuteMsg::ClaimPayment { payment_id } => try_claim_payment(payment_id, info, env, store),
        ExecuteMsg::RevertPayment { payment_id } => try_revert_payment(
            payment_id,
            info,
            env,
            store,
        ),
    }
}

/// Lists the payments that `receiver` was sent, by ascending id.
pub fn get_received_payments(
    receiver: Addr,
    store: &PaymentStore,
) -> (r: Result<Vec<Payment>, ContractError>)
    ensures
        store.listed(Side::Received, receiver@, r),
        store.intact() && store@.last_id() is Some ==> r is Ok,
{
    store.range_by_party(Side::Received, &receiver)
}

/// Lists the payments that `sender` has sent, by ascending id.
pub fn get_sent_payments(
    sender: Addr,
    store: &PaymentStore,
) -> (r: Result<Vec<Payment>, ContractError>)
    ensures
        store.listed(Side::Sent, sender@, r),
        store.intact() && store@.last_id() is Some ==> r is Ok,
{
    store.range_by_party(Side::Sent, &sender)
}

/// Reads the id that was assigned last.
pub fn query_count(store: &PaymentStore) -> (r: Result<CountResponse, ContractError>)
    ensures
        match r {
            Ok(response) => store@.last_id() == Some(response.count as int),
            Err(e) => store@.last_id() is None && e == ContractError::StorageCorruption,
        },
{
    match store.get_counter() {
        Ok(count) => Ok(CountResponse { count }),
        Err(e) => Err(e),
    }
}

/// Whether `listing` is the answer to a query for the payments of `party`
/// on `side`: the list, or the sentence of the error that listing gave.
pub open spec fn answered(
    store: &PaymentStore,
    side: Side,
    party: Seq<char>,
    listing: Result<Vec<Payment>, String>,
) -> bool {
    match listing {
        Ok(list) => store.listed(side, party, Ok(list)),
        Err(sentence) => store.listed(side, party, Err(ContractError::StorageCorruption))
            && sentence@ == ContractError::StorageCorruption.text(),
    }
}

/// Turns the outcome of a listing into the answer to a query: an error
/// becomes its sentence.
fn answer(listing: Result<Vec<Payment>, ContractError>) -> (r: QueryResponse)
    ensures
        match listing {
            Ok(list) => r == QueryResponse::Payments(Ok(list)),
            Err(e) => r matches QueryResponse::Payments(Err(sentence)) && sentence@ == e.text(),
        },
{
    match listing {
        Ok(list) => QueryResponse::Payments(Ok(list)),
        Err(e) => QueryResponse::Payments(Err(e.message())),
    }
}

/// Answers a request that only reads the ledger. Asked for the count, it
/// fails where the counter cannot be read; asked for payments, it answers
/// in any case, with the list or with the sentence of the error.
pub fn query(
    store: &PaymentStore,
    _env: Env,
    msg: QueryMsg,
) -> (r: Result<QueryResponse, ContractError>)
    ensures
        match msg {
            QueryMsg::GetCount {  } => match r {
                Ok(QueryResponse::Count(response)) => store@.last_id() == Some(
                    response.count as int,
                ),
                Ok(QueryResponse::Payments(_)) => false,
                Err(e) => store@.last_id() is None && e == ContractError::StorageCorruption,
            },
            QueryMsg::GetSentPayments { sender } => r matches Ok(QueryResponse::Payments(listing))
                && answered(store, Side::Sent, sender@, listing),
            QueryMsg::GetReceivedPayments { receiver } => r matches Ok(
                QueryResponse::Payments(listing),
            ) && answered(store, Side::Received, receiver@, listing),
        },
{
    match msg {
        QueryMsg::GetCount {  } => match query_count(store) {
            Ok(response) => Ok(QueryResponse::Count(response)),
            Err(e) => Err(e),
        },
        QueryMsg::GetSentPayments { sender } => {
            let result = get_sent_payments(sender, store);
            Ok(answer(result))
        },
        QueryMsg::GetReceivedPayments { receiver } => {
            let result = get_received_payments(receiver, store);
            Ok(answer(result))
        },
    }
}

} // verus!
