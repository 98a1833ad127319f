//! What holds of the rules of the escrow, for every state of the ledger and
//! every request.

use crate::error::ContractError;
use crate::msg::ExecuteMsg;
use crate::rules::{
    claim_outcome, execute_outcome, instantiate_outcome, revert_outcome, send_outcome,
    MAX_PAYMENT_ID,
};
use crate::state::{is_address, CoinData, PaymentData, MAX_ADDRESS_BYTES};
use crate::store::{fails_with, party_entries, LedgerState, Side};
use vstd::prelude::*;
use vstd::utf8::{encode_scalar, encode_utf8};

verus! {

/// The UTF-8 encoding of a text has at most four bytes for each character.
pub proof fn law_encoding_is_short(text: Seq<char>)
    ensures
        encode_utf8(text).len() <= 4 * text.len(),
    decreases text.len(),
{
    if text.len() > 0 {
        law_encoding_is_short(text.drop_first());
        assert(encode_scalar(text[0] as u32).len() <= 4);
    }
}

/// Every text of at most 16383 characters is an address.
pub proof fn law_short_text_is_address(text: Seq<char>)
    requires
        4 * text.len() <= MAX_ADDRESS_BYTES,
    ensures
        is_address(text),
{
    law_encoding_is_short(text);
}

/// A listing holds every entry of the party whose id lies in its range.
pub proof fn law_listing_is_complete(
    index: Map<(Seq<char>, int), PaymentData>,
    party: Seq<char>,
    first: int,
    last: int,
    id: int,
)
    requires
        first <= id <= last,
        index.contains_key((party, id)),
    ensures
        party_entries(index, party, first, last).contains(index[(party, id)]),
    decreases last - first,
{
    let before = party_entries(index, party, first, last - 1);
    if id == last {
        let all = before.push(index[(party, last)]);
        assert(all[all.len() - 1] == index[(party, id)]);
    } else {
        law_listing_is_complete(index, party, first, last - 1, id);
        let i = choose|i: int| 0 <= i < before.len() && before[i] == index[(party, id)];
        if index.contains_key((party, last)) {
            assert(before.push(index[(party, last)])[i] == index[(party, id)]);
        }
    }
}

/// A listing holds nothing but entries of the party whose id lies in its
/// range.
pub proof fn law_listing_is_exact(
    index: Map<(Seq<char>, int), PaymentData>,
    party: Seq<char>,
    first: int,
    last: int,
    i: int,
)
    requires
        0 <= i < party_entries(index, party, first, last).len(),
    ensures
        exists|id: int|
            first <= id <= last && #[trigger] index.contains_key((party, id)) && party_entries(
                index,
                party,
                first,
                last,
            )[i] == index[(party, id)],
    decreases last - first,
{
    let before = party_entries(index, party, first, last - 1);
    if i < before.len() {
        law_listing_is_exact(index, party, first, last - 1, i);
        let id = choose|id: int|
            first <= id <= last - 1 && #[trigger] index.contains_key((party, id)) && before[i]
                == index[(party, id)];
        assert(first <= id <= last && index.contains_key((party, id)));
    } else {
        assert(index.contains_key((party, last)));
    }
}

/// A listing is ordered by ascending id: of two of its records, the earlier
/// one stands in the index under the smaller id.
pub proof fn law_listing_is_ascending(
    index: Map<(Seq<char>, int), PaymentData>,
    party: Seq<char>,
    first: int,
    last: int,
    i: int,
    j: int,
)
    requires
        0 <= i < j < party_entries(index, party, first, last).len(),
    ensures
        exists|a: int, b: int|
            first <= a < b <= last && #[trigger] index.contains_key((party, a))
                && #[trigger] index.contains_key((party, b)) && party_entries(
                index,
                party,
                first,
                last,
            )[i] == index[(party, a)] && party_entries(index, party, first, last)[j] == index[(
                party,
                b,
            )],
    decreases last - first,
{
    let before = party_entries(index, party, first, last - 1);
    if j < before.len() {
        law_listing_is_ascending(index, party, first, last - 1, i, j);
        let (a, b) = choose|a: int, b: int|
            first <= a < b <= last - 1 && #[trigger] index.contains_key((party, a))
                && #[trigger] index.contains_key((party, b)) && before[i] == index[(party, a)]
                && before[j] == index[(party, b)];
        assert(first <= a < b <= last && index.contains_key((party, a)) && index.contains_key(
            (party, b),
        ));
    } else {
        law_listing_is_exact(index, party, first, last - 1, i);
        let a = choose|a: int|
            first <= a <= last - 1 && #[trigger] index.contains_key((party, a)) && before[i]
                == index[(party, a)];
        assert(first <= a < last <= last && index.contains_key((party, a)) && index.contains_key(
            (party, last),
        ));
    }
}

/// A listing depends only on the entries of its party within its range.
pub proof fn law_listing_ignores_other_entries(
    a: Map<(Seq<char>, int), PaymentData>,
    b: Map<(Seq<char>, int), PaymentData>,
    party: Seq<char>,
    first: int,
    last: int,
)
    requires
        forall|id: int|
            first <= id <= last ==> (#[trigger] a.contains_key((party, id)) == b.contains_key(
                (party, id),
            )),
        forall|id: int|
            first <= id <= last && #[trigger] a.contains_key((party, id)) ==> a[(party, id)] == b[(
                party,
                id,
            )],
    ensures
        party_entries(a, party, first, last) == party_entries(b, party, first, last),
    decreases last - first + 1,
{
    if last >= first {
        law_listing_ignores_other_entries(a, b, party, first, last - 1);
        assert(a.contains_key((party, last)) == b.contains_key((party, last)));
    }
}

/// A send that goes through assigns the id that follows the counter, and
/// that id becomes the counter.
pub proof fn law_send_assigns_next_id(
    state: LedgerState,
    sender: Seq<char>,
    receiver: Seq<char>,
    funds: Seq<CoinData>,
    time_ahead: int,
    now: nat,
)
    requires
        send_outcome(state, sender, receiver, funds, time_ahead, now) is Ok,
    ensures
        ({
            let after = send_outcome(state, sender, receiver, funds, time_ahead, now)->Ok_0.state;
            &&& state.last_id() matches Some(last)
            &&& after.last_id() == Some(last + 1)
            &&& after.sent.contains_key((sender, last + 1))
            &&& after.sent[(sender, last + 1)].payment_id == last + 1
        }),
{
}

/// On a ledger that was just set up, the first send that passes the checks
/// goes through and assigns the id 1.
pub proof fn law_first_id_is_one(
    state: LedgerState,
    owner: Seq<char>,
    sender: Seq<char>,
    receiver: Seq<char>,
    funds: Seq<CoinData>,
    time_ahead: int,
    now: nat,
)
    requires
        sender != receiver,
        time_ahead > 0,
        funds.len() > 0,
    ensures
        ({
            let fresh = instantiate_outcome(state, owner).state;
            let sent = send_outcome(fresh, sender, receiver, funds, time_ahead, now);
            &&& sent matches Ok(settled)
            &&& settled.state.last_id() == Some(1int)
            &&& settled.state.sent[(sender, 1int)].payment_id == 1
        }),
{
}

/// A send goes through exactly when the receiver is not the sender, the
/// deadline lies ahead, funds are attached and the counter has a successor;
/// otherwise the first of these that fails gives the error.
pub proof fn law_send_succeeds_iff(
    state: LedgerState,
    sender: Seq<char>,
    receiver: Seq<char>,
    funds: Seq<CoinData>,
    time_ahead: int,
    now: nat,
)
    ensures
        ({
            let outcome = send_outcome(state, sender, receiver, funds, time_ahead, now);
            let counted = state.last_id() matches Some(last) && last < MAX_PAYMENT_ID;
            &&& outcome is Ok <==> sender != receiver && time_ahead > 0 && funds.len() > 0
                && counted
            &&& fails_with(outcome, ContractError::InvalidRecipient) <==> sender == receiver
            &&& fails_with(outcome, ContractError::InvalidDeadline) <==> sender != receiver
                && time_ahead <= 0
            &&& fails_with(outcome, ContractError::ZeroPayment) <==> sender != receiver
                && time_ahead > 0 && funds.len() == 0
            &&& fails_with(outcome, ContractError::StorageCorruption) <==> sender != receiver
                && time_ahead > 0 && funds.len() > 0 && !counted
        }),
{
}

/// Right after a send, the listing of the sender in the sent index and the
/// listing of the receiver in the received index both end with the new
/// payment, field for field the same: open, with the first attached coin as
/// its funds and a deadline `time_ahead` seconds from now.
pub proof fn law_send_shows_in_both_listings(
    state: LedgerState,
    sender: Seq<char>,
    receiver: Seq<char>,
    funds: Seq<CoinData>,
    time_ahead: int,
    now: nat,
)
    requires
        send_outcome(state, sender, receiver, funds, time_ahead, now) is Ok,
    ensures
        ({
            let after = send_outcome(state, sender, receiver, funds, time_ahead, now)->Ok_0.state;
            let id = after.last_id().unwrap();
            let payment = after.sent[(sender, id)];
            &&& after.listing(Side::Sent, sender, id).last() == payment
            &&& after.listing(Side::Received, receiver, id).last() == payment
            &&& after.listing(Side::Sent, sender, id).contains(payment)
            &&& after.listing(Side::Received, receiver, id).contains(payment)
            &&& payment.sender == sender
            &&& payment.receiver == receiver
            &&& payment.amount_in_coins == funds[0]
            &&& payment.amount == funds[0].amount
            &&& payment.deadline == now + time_ahead
            &&& payment.deadline > now
            &&& !payment.claimed
            &&& !payment.reverted
        }),
{
    let after = send_outcome(state, sender, receiver, funds, time_ahead, now)->Ok_0.state;
    let id = after.last_id().unwrap();
    law_listing_is_complete(after.sent, sender, 1, id, id);
    law_listing_is_complete(after.received, receiver, 1, id, id);
}

/// On a coherent ledger the id of a new payment was never used before, and
/// the send changes no payment that was there.
pub proof fn law_send_id_is_fresh(
    state: LedgerState,
    sender: Seq<char>,
    receiver: Seq<char>,
    funds: Seq<CoinData>,
    time_ahead: int,
    now: nat,
)
    requires
        state.coherent(),
        send_outcome(state, sender, receiver, funds, time_ahead, now) is Ok,
    ensures
        ({
            let after = send_outcome(state, sender, receiver, funds, time_ahead, now)->Ok_0.state;
            let id = after.last_id().unwrap();
            &&& forall|party: Seq<char>|
                !(#[trigger] state.sent.contains_key((party, id)))
                    && !state.received.contains_key((party, id))
            &&& forall|k: (Seq<char>, int)| #[trigger]
                state.sent.contains_key(k) ==> after.sent.contains_key(k) && after.sent[k]
                    == state.sent[k]
            &&& forall|k: (Seq<char>, int)| #[trigger]
                state.received.contains_key(k) ==> after.received.contains_key(k)
                    && after.received[k] == state.received[k]
        }),
{
    let after = send_outcome(state, sender, receiver, funds, time_ahead, now)->Ok_0.state;
    let id = after.last_id().unwrap();
    assert forall|party: Seq<char>|
        !(#[trigger] state.sent.contains_key((party, id))) && !state.received.contains_key(
            (party, id),
        ) by {
        if state.sent.contains_key((party, id)) {
            assert(state.keeps(party, id, state.sent[(party, id)], |p: PaymentData| p.sender));
        }
        if state.received.contains_key((party, id)) {
            assert(state.keeps(
                party,
                id,
                state.received[(party, id)],
                |p: PaymentData| p.receiver,
            ));
        }
    }
    assert forall|k: (Seq<char>, int)| #[trigger] state.sent.contains_key(k) implies k.1 != id by {
        assert(state.sent.contains_key((k.0, k.1)));
    }
    assert forall|k: (Seq<char>, int)| #[trigger] state.received.contains_key(k) implies k.1
        != id by {
        assert(state.received.contains_key((k.0, k.1)));
    }
}

/// A claim goes through exactly when the received index holds a record for
/// the caller under the id, the record names the caller as its receiver, it
/// is neither claimed nor reverted, and the deadline has not passed.
/// Otherwise the first of these that fails gives the error: `NotFound`,
/// `AlreadyClaimed`, `AlreadyReverted`, `DeadlineExpired`, in this order
/// (and `StorageCorruption` for a record whose parties are no addresses).
pub proof fn law_claim_succeeds_iff(state: LedgerState, caller: Seq<char>, id: int, now: nat)
    ensures
        ({
            let outcome = claim_outcome(state, caller, id, now);
            let held = state.received.contains_key((caller, id));
            let payment = state.received[(caller, id)];
            let own = held && payment.sound() && payment.receiver == caller;
            &&& outcome is Ok <==> own && !payment.claimed && !payment.reverted && now
                <= payment.deadline
            &&& fails_with(outcome, ContractError::NotFound) <==> !held || (payment.sound()
                && payment.receiver != caller)
            &&& fails_with(outcome, ContractError::StorageCorruption) <==> held
                && !payment.sound()
            &&& fails_with(outcome, ContractError::AlreadyClaimed) <==> own && payment.claimed
            &&& fails_with(outcome, ContractError::AlreadyReverted) <==> own && !payment.claimed
                && payment.reverted
            &&& fails_with(outcome, ContractError::DeadlineExpired) <==> own && !payment.claimed
                && !payment.reverted && now > payment.deadline
        }),
{
}

/// A revert goes through exactly when the sent index holds a record for the
/// caller under the id, the record names the caller as its sender, and it
/// is neither claimed nor reverted. The time of the call plays no part.
/// Otherwise the first of these that fails gives the error: `NotFound`,
/// `AlreadyClaimed`, `AlreadyReverted`, in this order (and
/// `StorageCorruption` for a record whose parties are no addresses).
pub proof fn law_revert_succeeds_iff(state: LedgerState, caller: Seq<char>, id: int)
    ensures
        ({
            let outcome = revert_outcome(state, caller, id);
            let held = state.sent.contains_key((caller, id));
            let payment = state.sent[(caller, id)];
            let own = held && payment.sound() && payment.sender == caller;
            &&& outcome is Ok <==> own && !payment.claimed && !payment.reverted
            &&& fails_with(outcome, ContractError::NotFound) <==> !held || (payment.sound()
                && payment.sender != caller)
            &&& fails_with(outcome, ContractError::StorageCorruption) <==> held
                && !payment.sound()
            &&& fails_with(outcome, ContractError::AlreadyClaimed) <==> own && payment.claimed
            &&& fails_with(outcome, ContractError::AlreadyReverted) <==> own && !payment.claimed
                && payment.reverted
        }),
{
}

/// After a claim, the copy under the sender in the sent index and the copy
/// under the receiver in the received index are the same record: the one
/// that was claimed, now marked claimed and otherwise unchanged. No other
/// entry of either index has changed, nor has the counter.
pub proof fn law_claim_updates_both_copies(state: LedgerState, caller: Seq<char>, id: int, now: nat)
    requires
        claim_outcome(state, caller, id, now) is Ok,
    ensures
        ({
            let after = claim_outcome(state, caller, id, now)->Ok_0.state;
            let payment = state.received[(caller, id)];
            let claimed = PaymentData { claimed: true, ..payment };
            &&& after.sent.contains_key((payment.sender, id))
            &&& after.received.contains_key((caller, id))
            &&& after.sent[(payment.sender, id)] == claimed
            &&& after.received[(caller, id)] == claimed
            &&& claimed.claimed && !claimed.reverted
            &&& after.counter == state.counter
            &&& forall|k: (Seq<char>, int)|
                k != (payment.sender, id) ==> after.sent.contains_key(k) == state.sent.contains_key(
                    k,
                ) && after.sent[k] == state.sent[k]
            &&& forall|k: (Seq<char>, int)|
                k != (caller, id) ==> after.received.contains_key(k)
                    == state.received.contains_key(k) && after.received[k] == state.received[k]
        }),
{
}

/// After a revert, the copy under the sender in the sent index and the copy
/// under the receiver in the received index are the same record: the one
/// that was reverted, now marked reverted and otherwise unchanged. No other
/// entry of either index has changed, nor has the counter.
pub proof fn law_revert_updates_both_copies(state: LedgerState, caller: Seq<char>, id: int)
    requires
        revert_outcome(state, caller, id) is Ok,
    ensures
        ({
            let after = revert_outcome(state, caller, id)->Ok_0.state;
            let payment = state.sent[(caller, id)];
            let reverted = PaymentData { reverted: true, ..payment };
            &&& after.sent.contains_key((caller, id))
            &&& after.received.contains_key((payment.receiver, id))
            &&& after.sent[(caller, id)] == reverted
            &&& after.received[(payment.receiver, id)] == reverted
            &&& reverted.reverted && !reverted.claimed
            &&& after.counter == state.counter
            &&& forall|k: (Seq<char>, int)|
                k != (caller, id) ==> after.sent.contains_key(k) == state.sent.contains_key(k)
                    && after.sent[k] == state.sent[k]
            &&& forall|k: (Seq<char>, int)|
                k != (payment.receiver, id) ==> after.received.contains_key(k)
                    == state.received.contains_key(k) && after.received[k] == state.received[k]
        }),
{
}

/// Claiming the same payment twice goes through once: the second claim fails
/// with `AlreadyClaimed`, whenever it is made.
pub proof fn law_second_claim_fails(
    state: LedgerState,
    caller: Seq<char>,
    id: int,
    now: nat,
    later: nat,
)
    requires
        claim_outcome(state, caller, id, now) is Ok,
    ensures
        fails_with(
            claim_outcome(claim_outcome(state, caller, id, now)->Ok_0.state, caller, id, later),
            ContractError::AlreadyClaimed,
        ),
{
}

/// Reverting the same payment twice goes through once: the second revert
/// fails with `AlreadyReverted`.
pub proof fn law_second_revert_fails(state: LedgerState, caller: Seq<char>, id: int)
    requires
        revert_outcome(state, caller, id) is Ok,
    ensures
        fails_with(
            revert_outcome(revert_outcome(state, caller, id)->Ok_0.state, caller, id),
            ContractError::AlreadyReverted,
        ),
{
}

/// Once a payment is claimed, its sender cannot revert it: the revert fails
/// with `AlreadyClaimed`.
pub proof fn law_revert_after_claim_fails(state: LedgerState, caller: Seq<char>, id: int, now: nat)
    requires
        claim_outcome(state, caller, id, now) is Ok,
    ensures
        fails_with(
            revert_outcome(
                claim_outcome(state, caller, id, now)->Ok_0.state,
                state.received[(caller, id)].sender,
                id,
            ),
            ContractError::AlreadyClaimed,
        ),
{
}

/// Once a payment is reverted, its receiver cannot claim it: the claim fails
/// with `AlreadyReverted`, whenever it is made.
pub proof fn law_claim_after_revert_fails(state: LedgerState, caller: Seq<char>, id: int, now: nat)
    requires
        revert_outcome(state, caller, id) is Ok,
    ensures
        fails_with(
            claim_outcome(
                revert_outcome(state, caller, id)->Ok_0.state,
                state.sent[(caller, id)].receiver,
                id,
                now,
            ),
            ContractError::AlreadyReverted,
        ),
{
}

/// Setting the ledger up leaves it coherent, where it holds no payment yet.
pub proof fn law_instantiate_is_coherent(state: LedgerState, owner: Seq<char>)
    requires
        state.sent.is_empty(),
        state.received.is_empty(),
    ensures
        instantiate_outcome(state, owner).state.coherent(),
{
    let after = instantiate_outcome(state, owner).state;
    assert forall|party: Seq<char>, id: int| !after.sent.contains_key((party, id)) by {
        assert(!state.sent.dom().contains((party, id)));
    }
    assert forall|party: Seq<char>, id: int| !after.received.contains_key((party, id)) by {
        assert(!state.received.dom().contains((party, id)));
    }
}

/// A send between two addresses keeps a coherent ledger coherent.
pub proof fn law_send_keeps_coherent(
    state: LedgerState,
    sender: Seq<char>,
    receiver: Seq<char>,
    funds: Seq<CoinData>,
    time_ahead: int,
    now: nat,
)
    requires
        state.coherent(),
        is_address(sender),
        is_address(receiver),
        send_outcome(state, sender, receiver, funds, time_ahead, now) is Ok,
    ensures
        send_outcome(state, sender, receiver, funds, time_ahead, now)->Ok_0.state.coherent(),
{
    let after = send_outcome(state, sender, receiver, funds, time_ahead, now)->Ok_0.state;
    let new_id = state.last_id().unwrap() + 1;
    assert forall|party: Seq<char>, id: int| #[trigger]
        after.sent.contains_key((party, id)) implies {
        let payment = after.sent[(party, id)];
        &&& after.keeps(party, id, payment, |p: PaymentData| p.sender)
        &&& after.received.contains_key((payment.receiver, id))
        &&& after.received[(payment.receiver, id)] == payment
    } by {
        if (party, id) != (sender, new_id) {
            assert(state.sent.contains_key((party, id)));
        }
    }
    assert forall|party: Seq<char>, id: int| #[trigger]
        after.received.contains_key((party, id)) implies {
        let payment = after.received[(party, id)];
        &&& after.keeps(party, id, payment, |p: PaymentData| p.receiver)
        &&& after.sent.contains_key((payment.sender, id))
        &&& after.sent[(payment.sender, id)] == payment
    } by {
        if (party, id) != (receiver, new_id) {
            assert(state.received.contains_key((party, id)));
        }
    }
}

/// A claim keeps a coherent ledger coherent.
pub proof fn law_claim_keeps_coherent(state: LedgerState, caller: Seq<char>, id: int, now: nat)
    requires
        state.coherent(),
        claim_outcome(state, caller, id, now) is Ok,
    ensures
        claim_outcome(state, caller, id, now)->Ok_0.state.coherent(),
{
    let after = claim_outcome(state, caller, id, now)->Ok_0.state;
    let old_payment = state.received[(caller, id)];
    assert(state.received.contains_key((caller, id)));
    assert forall|party: Seq<char>, i: int| #[trigger]
        after.sent.contains_key((party, i)) implies {
        let payment = after.sent[(party, i)];
        &&& after.keeps(party, i, payment, |p: PaymentData| p.sender)
        &&& after.received.contains_key((payment.receiver, i))
        &&& after.received[(payment.receiver, i)] == payment
    } by {
        if (party, i) != (old_payment.sender, id) {
            assert(state.sent.contains_key((party, i)));
        }
    }
    assert forall|party: Seq<char>, i: int| #[trigger]
        after.received.contains_key((party, i)) implies {
        let payment = after.received[(party, i)];
        &&& after.keeps(party, i, payment, |p: PaymentData| p.receiver)
        &&& after.sent.contains_key((payment.sender, i))
        &&& after.sent[(payment.sender, i)] == payment
    } by {
        if (party, i) != (caller, id) {
            assert(state.received.contains_key((party, i)));
        }
    }
}

/// A revert keeps a coherent ledger coherent.
pub proof fn law_revert_keeps_coherent(state: LedgerState, caller: Seq<char>, id: int)
    requires
        state.coherent(),
        revert_outcome(state, caller, id) is Ok,
    ensures
        revert_outcome(state, caller, id)->Ok_0.state.coherent(),
{
    let after = revert_outcome(state, caller, id)->Ok_0.state;
    let old_payment = state.sent[(caller, id)];
    assert(state.sent.contains_key((caller, id)));
    assert forall|party: Seq<char>, i: int| #[trigger]
        after.sent.contains_key((party, i)) implies {
        let payment = after.sent[(party, i)];
        &&& after.keeps(party, i, payment, |p: PaymentData| p.sender)
        &&& after.received.contains_key((payment.receiver, i))
        &&& after.received[(payment.receiver, i)] == payment
    } by {
        if (party, i) != (caller, id) {
            assert(state.sent.contains_key((party, i)));
        }
    }
    assert forall|party: Seq<char>, i: int| #[trigger]
        after.received.contains_key((party, i)) implies {
        let payment = after.received[(party, i)];
        &&& after.keeps(party, i, payment, |p: PaymentData| p.receiver)
        &&& after.sent.contains_key((payment.sender, i))
        &&& after.sent[(payment.sender, i)] == payment
    } by {
        if (party, i) != (old_payment.receiver, id) {
            assert(state.received.contains_key((party, i)));
        }
    }
}

/// Whatever request is carried out by an address, and whether it goes
/// through or not, a coherent ledger stays coherent and its counter never
/// goes down.
pub proof fn law_execute_keeps_coherent(
    state: LedgerState,
    msg: ExecuteMsg,
    sender: Seq<char>,
    funds: Seq<CoinData>,
    now: nat,
)
    requires
        state.coherent(),
        is_address(sender),
        msg matches ExecuteMsg::SendPayment { receiver, .. } ==> is_address(receiver@),
    ensures
        match execute_outcome(state, msg, sender, funds, now) {
            Ok(settled) => settled.state.coherent() && settled.state.last_id().unwrap()
                >= state.last_id().unwrap(),
            Err(_) => true,
        },
{
    match msg {
        ExecuteMsg::Increment {  } => {},
        ExecuteMsg::Reset { count } => {},
        ExecuteMsg::SendPayment { receiver, time_ahead } => {
            if send_outcome(state, sender, receiver@, funds, time_ahead as int, now) is Ok {
                law_send_keeps_coherent(state, sender, receiver@, funds, time_ahead as int, now);
            }
        },
        ExecuteMsg::ClaimPayment { payment_id } => {
            if claim_outcome(state, sender, payment_id as int, now) is Ok {
                law_claim_keeps_coherent(state, sender, payment_id as int, now);
            }
        },
        ExecuteMsg::RevertPayment { payment_id } => {
            if revert_outcome(state, sender, payment_id as int) is Ok {
                law_revert_keeps_coherent(state, sender, payment_id as int);
            }
        },
    }
}

} // verus!
