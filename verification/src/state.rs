//! The payment record, the parties named in it and the funds it carries.

use crate::text::{decimal, decimal_string};
use vstd::prelude::*;
use vstd::utf8::encode_utf8;

verus! {

/// The longest address, in bytes of UTF-8, that can be part of a storage key.
pub const MAX_ADDRESS_BYTES: usize = 0xFFFF;

/// Whether `text` is short enough to name a party: its UTF-8 encoding has at
/// most `MAX_ADDRESS_BYTES` bytes.
pub open spec fn is_address(text: Seq<char>) -> bool {
    encode_utf8(text).len() <= MAX_ADDRESS_BYTES
}

/// The name of a party. Every value of this type is short enough to be part
/// of a storage key.
#[derive(Debug, PartialEq, Eq)]
pub struct Addr {
    text: String,
}

impl View for Addr {
    type V = Seq<char>;

    closed spec fn view(&self) -> Seq<char> {
        self.text@
    }
}

impl Addr {
    /// What holds of every address: its text is short enough.
    #[verifier::type_invariant]
    pub open spec fn well_formed(self) -> bool {
        is_address(self@)
    }

    /// Makes an address of `text`, or nothing where `text` is too long.
    pub fn new(text: String) -> (r: Option<Addr>)
        ensures
            match r {
                Some(addr) => is_address(text@) && addr@ == text@,
                None => !is_address(text@),
            },
    {
        if text.as_str().as_bytes().len() <= MAX_ADDRESS_BYTES {
            Some(Addr { text })
        } else {
            None
        }
    }

    /// The address as text.
    pub fn as_str(&self) -> (s: &str)
        ensures
            s@ == self@,
            is_address(s@),
    {
        proof {
            use_type_invariant(self);
        }
        self.text.as_str()
    }

    /// The address as an owned text.
    pub fn into_string(self) -> (s: String)
        ensures
            s@ == self@,
            is_address(s@),
    {
        proof {
            use_type_invariant(&self);
        }
        self.text
    }

    /// Whether two addresses name the same party.
    pub fn same(&self, other: &Addr) -> (r: bool)
        ensures
            r == (self@ == other@),
    {
        self.text == other.text
    }
}

impl Clone for Addr {
    fn clone(&self) -> (r: Self)
        ensures
            r@ == self@,
    {
        proof {
            use_type_invariant(self);
        }
        Addr { text: self.text.clone() }
    }
}

/// What a `Coin` stands for: an amount of one denomination.
pub struct CoinData {
    pub denom: Seq<char>,
    pub amount: nat,
}

impl CoinData {
    /// The coin as text: the amount as a decimal numeral, then the
    /// denomination, with nothing between them.
    pub open spec fn text(self) -> Seq<char> {
        decimal(self.amount) + self.denom
    }
}

/// An amount of one denomination.
#[derive(Debug, PartialEq, Eq)]
pub struct Coin {
    pub denom: String,
    pub amount: u128,
}

impl View for Coin {
    type V = CoinData;

    open spec fn view(&self) -> CoinData {
        CoinData { denom: self.denom@, amount: self.amount as nat }
    }
}

impl Coin {
    /// The coin of `amount` units of `denom`.
    pub fn new(amount: u128, denom: String) -> (coin: Coin)
        ensures
            coin@ == (CoinData { denom: denom@, amount: amount as nat }),
    {
        Coin { denom, amount }
    }

    /// Renders the coin as text: amount, then denomination.
    pub fn render(&self) -> (s: String)
        ensures
            s@ == self@.text(),
    {
        let mut s = decimal_string(self.amount);
        s.append(self.denom.as_str());
        s
    }
}

impl Clone for Coin {
    fn clone(&self) -> (r: Self)
        ensures
            r@ == self@,
    {
        Coin { denom: self.denom.clone(), amount: self.amount }
    }
}

/// What a `Payment` stands for.
pub struct PaymentData {
    pub sender: Seq<char>,
    pub receiver: Seq<char>,
    pub amount: nat,
    pub amount_in_coins: CoinData,
    pub deadline: nat,
    pub claimed: bool,
    pub reverted: bool,
    pub payment_id: int,
}

impl PaymentData {
    /// Whether both parties of the record are addresses.
    pub open spec fn sound(self) -> bool {
        is_address(self.sender) && is_address(self.receiver)
    }
}

/// Funds that `sender` has set aside for `receiver`, to be claimed until
/// `deadline` (in seconds) or taken back by the sender.
#[derive(Debug, PartialEq, Eq)]
pub struct Payment {
    pub sender: Addr,
    pub receiver: Addr,
    pub amount: u128,
    pub amount_in_coins: Coin,
    pub deadline: u64,
    pub claimed: bool,
    pub reverted: bool,
    pub payment_id: i32,
}

impl View for Payment {
    type V = PaymentData;

    open spec fn view(&self) -> PaymentData {
        PaymentData {
            sender: self.sender@,
            receiver: self.receiver@,
            amount: self.amount as nat,
            amount_in_coins: self.amount_in_coins@,
            deadline: self.deadline as nat,
            claimed: self.claimed,
            reverted: self.reverted,
            payment_id: self.payment_id as int,
        }
    }
}

impl Clone for Payment {
    fn clone(&self) -> (r: Self)
        ensures
            r@ == self@,
    {
        Payment {
            sender: self.sender.clone(),
            receiver: self.receiver.clone(),
            amount: self.amount,
            amount_in_coins: self.amount_in_coins.clone(),
            deadline: self.deadline,
            claimed: self.claimed,
            reverted: self.reverted,
            payment_id: self.payment_id,
        }
    }
}

impl Payment {
    /// The views of a list of payments, in the same order.
    pub open spec fn views(list: Seq<Payment>) -> Seq<PaymentData> {
        list.map_values(|p: Payment| p@)
    }
}

} // verus!
