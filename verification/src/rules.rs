//! The rules of the escrow, as functions from the state of the ledger and a
//! request to the state and the response that the request leaves.

use crate::error::ContractError;
use crate::msg::{AttributeData, ExecuteMsg, Response, ResponseData, TransferData};
use crate::state::{CoinData, PaymentData};
use crate::store::{LedgerState, Side};
use crate::text::decimal;
use vstd::prelude::*;

verus! {

/// The largest id that a payment can have.
pub const MAX_PAYMENT_ID: i32 = i32::MAX;

/// The name under which the contract registers itself.
pub const CONTRACT_NAME: &'static str = "crates.io:try1";

/// The version under which the contract registers itself.
pub const CONTRACT_VERSION: &'static str = "0.1.0";

/// What a request that went through leaves behind: the new state of the
/// ledger and the response.
pub struct Settled {
    pub state: LedgerState,
    pub response: ResponseData,
}

/// The attribute `key` with `value`.
pub open spec fn attribute(key: Seq<char>, value: Seq<char>) -> AttributeData {
    AttributeData { key, value }
}

/// The transfer of one coin to `to_address`.
pub open spec fn transfer(to_address: Seq<char>, coin: CoinData) -> TransferData {
    TransferData { to_address, amount: seq![coin] }
}

/// Whether a call that started in `before`, ended in `after` and returned `r`
/// did what `expected` says: on success the state and the response are the
/// expected ones, on failure the error is the expected one and the state is
/// as it was.
pub open spec fn settles(
    before: LedgerState,
    after: LedgerState,
    r: Result<Response, ContractError>,
    expected: Result<Settled, ContractError>,
) -> bool {
    match expected {
        Ok(settled) => {
            &&& after == settled.state
            &&& r matches Ok(response)
            &&& response@ == settled.response
        },
        Err(e) => {
            &&& after == before
            &&& r matches Err(x)
            &&& x == e
        },
    }
}

/// The payment that a claim or a revert by `party` is about, given what the
/// lookup under the key of `party` has found: the record, which must name
/// `party` in the role that the index is keyed by and must be open, that is
/// neither claimed nor reverted. The checks are made in this order, and the
/// first that fails gives the error.
pub open spec fn open_payment(
    found: Result<PaymentData, ContractError>,
    party_of_record: spec_fn(PaymentData) -> Seq<char>,
    party: Seq<char>,
) -> Result<PaymentData, ContractError> {
    match found {
        Err(e) => Err(e),
        Ok(payment) => if party_of_record(payment) != party {
            Err(ContractError::NotFound)
        } else if payment.claimed {
            Err(ContractError::AlreadyClaimed)
        } else if payment.reverted {
            Err(ContractError::AlreadyReverted)
        } else {
            Ok(payment)
        },
    }
}

/// The payment that `caller` claims under `id` at the second `now`: the open
/// payment that the received index holds for the caller, if its deadline has
/// not passed.
pub open spec fn claimable(
    state: LedgerState,
    caller: Seq<char>,
    id: int,
    now: nat,
) -> Result<PaymentData, ContractError> {
    match open_payment(
        state.lookup(Side::Received, caller, id),
        |p: PaymentData| p.receiver,
        caller,
    ) {
        Err(e) => Err(e),
        Ok(payment) => if now > payment.deadline {
            Err(ContractError::DeadlineExpired)
        } else {
            Ok(payment)
        },
    }
}

/// The payment that `caller` reverts under `id`: the open payment that the
/// sent index holds for the caller. The deadline plays no part.
pub open spec fn revertible(
    state: LedgerState,
    caller: Seq<char>,
    id: int,
) -> Result<PaymentData, ContractError> {
    open_payment(
        state.lookup(Side::Sent, caller, id),
        |p: PaymentData| p.sender,
        caller,
    )
}

/// What the claim of payment `id` by `caller` at the second `now` does: the
/// payment is marked claimed in both indexes and its coin goes to the caller.
pub open spec fn claim_outcome(
    state: LedgerState,
    caller: Seq<char>,
    id: int,
    now: nat,
) -> Result<Settled, ContractError> {
    match claimable(state, caller, id, now) {
        Err(e) => Err(e),
        Ok(payment) => {
            let claimed = PaymentData { claimed: true, ..payment };
            Ok(
                Settled {
                    state: state.with_payment(id, claimed),
                    response: ResponseData {
                        messages: seq![transfer(caller, payment.amount_in_coins)],
                        attributes: seq![attribute("method"@, "try_claim_payment"@)],
                    },
                },
            )
        },
    }
}

/// What the revert of payment `id` by `caller` does: the payment is marked
/// reverted in both indexes and its coin goes back to the caller.
pub open spec fn revert_outcome(
    state: LedgerState,
    caller: Seq<char>,
    id: int,
) -> Result<Settled, ContractError> {
    match revertible(state, caller, id) {
        Err(e) => Err(e),
        Ok(payment) => {
            let reverted = PaymentData { reverted: true, ..payment };
            Ok(
                Settled {
                    state: state.with_payment(id, reverted),
                    response: ResponseData {
                        messages: seq![transfer(caller, payment.amount_in_coins)],
                        attributes: seq![
                            attribute("method"@, "try_revert_payment"@),
                            attribute("coin"@, payment.amount_in_coins.text()),
                        ],
                    },
                },
            )
        },
    }
}

/// The payment that a send creates: open, with the first attached coin as
/// its funds.
pub open spec fn new_payment(
    sender: Seq<char>,
    receiver: Seq<char>,
    coin: CoinData,
    deadline: nat,
    id: int,
) -> PaymentData {
    PaymentData {
        sender,
        receiver,
        amount: coin.amount,
        amount_in_coins: coin,
        deadline,
        claimed: false,
        reverted: false,
        payment_id: id,
    }
}

/// What `sender` does by sending `funds` to `receiver` at the second `now`,
/// to be claimed within `time_ahead` seconds. The request is checked in this
/// order: the receiver is not the sender, the deadline lies after `now`, and
/// funds are attached. Then the counter, which must be readable and have a
/// successor, goes up by one, its new value is the id of the payment, and
/// the payment is written to both indexes.
pub open spec fn send_outcome(
    state: LedgerState,
    sender: Seq<char>,
    receiver: Seq<char>,
    funds: Seq<CoinData>,
    time_ahead: int,
    now: nat,
) -> Result<Settled, ContractError> {
    if sender == receiver {
        Err(ContractError::InvalidRecipient)
    } else if time_ahead <= 0 {
        Err(ContractError::InvalidDeadline)
    } else if funds.len() == 0 {
        Err(ContractError::ZeroPayment)
    } else if state.last_id() is None || state.last_id().unwrap() >= MAX_PAYMENT_ID {
        Err(ContractError::StorageCorruption)
    } else {
        let id = state.last_id().unwrap() + 1;
        let payment = new_payment(sender, receiver, funds[0], (now + time_ahead) as nat, id);
        Ok(
            Settled {
                state: (LedgerState { counter: Some(id), ..state }).with_payment(id, payment),
                response: ResponseData {
                    messages: seq![],
                    attributes: seq![
                        attribute("method"@, "try_send_payment"@),
                        attribute("receiver"@, receiver),
                        attribute("time_ahead"@, decimal(time_ahead as nat)),
                        attribute("sender"@, sender),
                        attribute("amount"@, decimal(funds[0].amount)),
                        attribute("payment_id"@, decimal(id as nat)),
                    ],
                },
            },
        )
    }
}

/// What setting the ledger up for `owner` does: the contract name and
/// version are written and the counter starts at zero, so that the first
/// payment gets the id 1. The payments are not touched.
pub open spec fn instantiate_outcome(state: LedgerState, owner: Seq<char>) -> Settled {
    Settled {
        state: LedgerState {
            counter: Some(0int),
            version: Some((CONTRACT_NAME@, CONTRACT_VERSION@)),
            ..state
        },
        response: ResponseData {
            messages: seq![],
            attributes: seq![
                attribute("method"@, "instantiate"@),
                attribute("owner"@, owner),
                attribute("count"@, decimal(0)),
            ],
        },
    }
}

/// What a request that changes nothing does: it leaves its name as the
/// attribute `method`.
pub open spec fn noted(state: LedgerState, method: Seq<char>) -> Settled {
    Settled {
        state,
        response: ResponseData {
            messages: seq![],
            attributes: seq![attribute("method"@, method)],
        },
    }
}

/// What the request `msg` of `sender`, made at the second `now` with `funds`
/// attached, does.
pub open spec fn execute_outcome(
    state: LedgerState,
    msg: ExecuteMsg,
    sender: Seq<char>,
    funds: Seq<CoinData>,
    now: nat,
) -> Result<Settled, ContractError> {
    match msg {
        ExecuteMsg::Increment {  } => Ok(noted(state, "try_increment"@)),
        ExecuteMsg::Reset { count } => Ok(noted(state, "reset"@)),
        ExecuteMsg::SendPayment { receiver, time_ahead } => send_outcome(
            state,
            sender,
            receiver@,
            funds,
            time_ahead as int,
            now,
        ),
        ExecuteMsg::ClaimPayment { payment_id } => claim_outcome(
            state,
            sender,
            payment_id as int,
            now,
        ),
        ExecuteMsg::RevertPayment { payment_id } => revert_outcome(state, sender, payment_id as int),
    }
}

} // verus!
