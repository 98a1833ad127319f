//! What callers hand to the ledger and what the ledger answers.

use crate::state::{Addr, Coin, CoinData, Payment};
use vstd::prelude::*;

verus! {

/// Nanoseconds in one second.
pub const NANOS_PER_SECOND: u64 = 1_000_000_000;

/// A point in time, in nanoseconds since the epoch.
#[derive(Clone, Copy, Debug, PartialEq, Eq, Structural)]
pub struct Timestamp {
    pub nanos: u64,
}

impl Timestamp {
    /// The whole seconds since the epoch.
    pub open spec fn spec_seconds(self) -> nat {
        (self.nanos / NANOS_PER_SECOND) as nat
    }

    /// The point in time `nanos` nanoseconds after the epoch.
    pub fn from_nanos(nanos: u64) -> (t: Timestamp)
        ensures
            t.nanos == nanos,
    {
        Timestamp { nanos }
    }

    /// The point in time `seconds` seconds after the epoch.
    pub fn from_seconds(seconds: u64) -> (t: Timestamp)
        requires
            seconds * NANOS_PER_SECOND <= u64::MAX,
        ensures
            t.nanos == seconds * NANOS_PER_SECOND,
            t.spec_seconds() == seconds,
    {
        Timestamp { nanos: seconds * NANOS_PER_SECOND }
    }

    /// The whole seconds since the epoch.
    pub fn seconds(&self) -> (s: u64)
        ensures
            s == self.spec_seconds(),
            s <= u64::MAX / NANOS_PER_SECOND,
    {
        self.nanos / NANOS_PER_SECOND
    }
}

/// The moment at which a call is made.
#[derive(Clone, Copy, Debug, PartialEq, Eq, Structural)]
pub struct Env {
    pub time: Timestamp,
}

/// Who makes a call, and the funds attached to it.
#[derive(Debug, PartialEq, Eq)]
pub struct MessageInfo {
    pub sender: Addr,
    pub funds: Vec<Coin>,
}

/// What a list of coins stands for, in the same order.
pub open spec fn coins_data(coins: Seq<Coin>) -> Seq<CoinData> {
    coins.map_values(|c: Coin| c@)
}

/// The request that sets the ledger up.
#[derive(Clone, Copy, Debug, PartialEq, Eq, Structural)]
pub struct InstantiateMsg {
    pub count: i32,
}

/// A request that may change the ledger.
#[derive(Debug, PartialEq, Eq)]
pub enum ExecuteMsg {
    /// Changes nothing.
    Increment {  },
    /// Changes nothing.
    Reset { count: i32 },
    /// Sets the attached funds aside for `receiver`, to be claimed within
    /// `time_ahead` seconds.
    SendPayment { receiver: Addr, time_ahead: i32 },
    /// Pays the payment out to the caller, its receiver.
    ClaimPayment { payment_id: i32 },
    /// Gives the payment back to the caller, its sender.
    RevertPayment { payment_id: i32 },
}

/// A request that only reads the ledger.
#[derive(Debug, PartialEq, Eq)]
pub enum QueryMsg {
    /// Asks for the id that was assigned last.
    GetCount {  },
    /// Asks for the payments that `sender` has sent.
    GetSentPayments { sender: Addr },
    /// Asks for the payments that `receiver` was sent.
    GetReceivedPayments { receiver: Addr },
}

/// The answer to `QueryMsg::GetCount`.
#[derive(Clone, Copy, Debug, PartialEq, Eq, Structural)]
pub struct CountResponse {
    pub count: i32,
}

/// The answer to a query.
#[derive(Debug, PartialEq, Eq)]
pub enum QueryResponse {
    /// The id that was assigned last.
    Count(CountResponse),
    /// The payments of a party, or the sentence of the error that kept them
    /// from being listed.
    Payments(Result<Vec<Payment>, String>),
}

/// What an `Attribute` stands for.
pub struct AttributeData {
    pub key: Seq<char>,
    pub value: Seq<char>,
}

/// A named value in the record of a call.
#[derive(Debug, PartialEq, Eq)]
pub struct Attribute {
    pub key: String,
    pub value: String,
}

impl View for Attribute {
    type V = AttributeData;

    open spec fn view(&self) -> AttributeData {
        AttributeData { key: self.key@, value: self.value@ }
    }
}

/// What a `BankMsg` stands for: funds that go to an address.
pub struct TransferData {
    pub to_address: Seq<char>,
    pub amount: Seq<CoinData>,
}

/// An instruction to move funds.
#[derive(Debug, PartialEq, Eq)]
pub enum BankMsg {
    /// Moves `amount` out of escrow to `to_address`.
    Send { to_address: String, amount: Vec<Coin> },
}

impl View for BankMsg {
    type V = TransferData;

    open spec fn view(&self) -> TransferData {
        match self {
            BankMsg::Send { to_address, amount } => TransferData {
                to_address: to_address@,
                amount: coins_data(amount@),
            },
        }
    }
}

/// What a `Response` stands for.
#[verifier::ext_equal]
pub struct ResponseData {
    pub messages: Seq<TransferData>,
    pub attributes: Seq<AttributeData>,
}

/// The outcome of a call that went through: the fund transfers it orders and
/// the record it leaves.
#[derive(Debug, PartialEq, Eq)]
pub struct Response {
    pub messages: Vec<BankMsg>,
    pub attributes: Vec<Attribute>,
}

impl View for Response {
    type V = ResponseData;

    open spec fn view(&self) -> ResponseData {
        ResponseData {
            messages: self.messages@.map_values(|m: BankMsg| m@),
            attributes: self.attributes@.map_values(|a: Attribute| a@),
        }
    }
}

impl Response {
    /// A response that orders no transfer and records nothing.
    pub fn new() -> (r: Response)
        ensures
            r@.messages == Seq::<TransferData>::empty(),
            r@.attributes == Seq::<AttributeData>::empty(),
    {
        let r = Response { messages: Vec::new(), attributes: Vec::new() };
        assert(r@.messages =~= Seq::<TransferData>::empty());
        assert(r@.attributes =~= Seq::<AttributeData>::empty());
        r
    }

    /// Adds the attribute `key` with `value` after those already there.
    pub fn add_attribute(self, key: &str, value: String) -> (r: Response)
        ensures
            r@.messages == self@.messages,
            r@.attributes == self@.attributes.push(AttributeData { key: key@, value: value@ }),
    {
        let mut r = self;
        r.attributes.push(Attribute { key: key.to_owned(), value });
        assert(r@.attributes =~= self@.attributes.push(AttributeData { key: key@, value: value@ }));
        r
    }

    /// Adds the transfer `msg` after those already there.
    pub fn add_message(self, msg: BankMsg) -> (r: Response)
        ensures
            r@.messages == self@.messages.push(msg@),
            r@.attributes == self@.attributes,
    {
        let mut r = self;
        r.messages.push(msg);
        assert(r@.messages =~= self@.messages.push(msg@));
        r
    }
}

} // verus!
