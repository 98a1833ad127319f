//! The persistent side of the ledger: one counter cell and two indexes of
//! payments, kept in a `cosmwasm_std::MemoryStorage` through the typed
//! accessors of `cosmwasm_storage` and `cw_storage_plus`.

use crate::error::ContractError;
use crate::state::{is_address, Addr, Coin, Payment, PaymentData, CoinData};
use cosmwasm_std::{MemoryStorage, Order};
use cosmwasm_storage::{ReadonlySingleton, Singleton};
use cw_storage_plus::Bound;
use vstd::prelude::*;

verus! {

/// The key-value store of `cosmwasm_std` that lives in memory. Its contents
/// are seen only through the five names declared below.
#[verifier::external_type_specification]
#[verifier::external_body]
pub struct ExMemoryStorage(MemoryStorage);

/// A payment as it is written to a storage: sender, receiver, amount, the
/// coin as denomination and amount, deadline, claimed, reverted, id.
type Record = (String, String, u128, (String, u128), u64, bool, bool, i32);

/// What a stored record stands for.
spec fn record_data(r: Record) -> PaymentData {
    PaymentData {
        sender: r.0@,
        receiver: r.1@,
        amount: r.2 as nat,
        amount_in_coins: CoinData { denom: r.3.0@, amount: r.3.1 as nat },
        deadline: r.4 as nat,
        claimed: r.5,
        reverted: r.6,
        payment_id: r.7 as int,
    }
}

/// What a list of stored records stands for, in the same order.
spec fn records_data(list: Seq<Record>) -> Seq<PaymentData> {
    list.map_values(|r: Record| record_data(r))
}

/// The number that the counter cell of `storage` holds, if the cell is there
/// and holds a number.
pub uninterp spec fn counter_cell(storage: MemoryStorage) -> Option<i32>;

/// The records that `storage` holds in its index of sent payments, by
/// sending party and payment id.
pub uninterp spec fn sent_index(storage: MemoryStorage) -> Map<(Seq<char>, int), PaymentData>;

/// The records that `storage` holds in its index of received payments, by
/// receiving party and payment id.
pub uninterp spec fn received_index(storage: MemoryStorage) -> Map<(Seq<char>, int), PaymentData>;

/// The raw keys of `storage` that lie inside one of the two indexes without
/// being a record of it: the key is not a party followed by an id, or the
/// value is not a record.
pub uninterp spec fn unreadable_keys(storage: MemoryStorage) -> Set<Seq<u8>>;

/// The contract name and version that `storage` holds, if any.
pub uninterp spec fn contract_version(storage: MemoryStorage) -> Option<(Seq<char>, Seq<char>)>;

/// The entries of `index` that belong to `party` and have an id from `first`
/// to `last`, both included, by ascending id.
pub open spec fn party_entries(
    index: Map<(Seq<char>, int), PaymentData>,
    party: Seq<char>,
    first: int,
    last: int,
) -> Seq<PaymentData>
    decreases last - first + 1,
{
    if last < first {
        Seq::empty()
    } else {
        let before = party_entries(index, party, first, last - 1);
        if index.contains_key((party, last)) {
            before.push(index[(party, last)])
        } else {
            before
        }
    }
}

/// Calls `MemoryStorage::new`. A new storage holds no entry at all: no
/// counter, no record in either index, no unreadable key, no version.
#[verifier::external_body]
fn empty_storage() -> (storage: MemoryStorage)
    ensures
        counter_cell(storage) is None,
        sent_index(storage).is_empty(),
        received_index(storage).is_empty(),
        unreadable_keys(storage).is_empty(),
        contract_version(storage) is None,
{
    MemoryStorage::new()
}

/// Calls `ReadonlySingleton::load` on the cell `curr_payment_id`. The call
/// gives the number in the cell, or an error where the cell is missing or
/// does not hold a number; the error becomes `None`.
#[verifier::external_body]
#[allow(deprecated)]
fn load_counter(storage: &MemoryStorage) -> (r: Option<i32>)
    ensures
        r == counter_cell(*storage),
{
    ReadonlySingleton::<i32>::new(storage, b"curr_payment_id").load().ok()
}

/// Calls `Singleton::save` on the cell `curr_payment_id`. The cell then holds
/// `value`. Its key lies outside both indexes and is not the key of the
/// version, so these stay as they were. Writing a number cannot fail.
#[verifier::external_body]
#[allow(deprecated)]
fn save_counter(storage: &mut MemoryStorage, value: i32)
    ensures
        counter_cell(*final(storage)) == Some(value),
        sent_index(*final(storage)) == sent_index(*old(storage)),
        received_index(*final(storage)) == received_index(*old(storage)),
        unreadable_keys(*final(storage)) == unreadable_keys(*old(storage)),
        contract_version(*final(storage)) == contract_version(*old(storage)),
{
    Singleton::<i32>::new(storage, b"curr_payment_id").save(&value).unwrap()
}

/// Calls `cw2::set_contract_version`, which writes `name` and `version` under
/// the key `contract_info`. That key lies outside both indexes and is not the
/// key of the counter. Writing two texts cannot fail.
#[verifier::external_body]
fn save_version(storage: &mut MemoryStorage, name: &str, version: &str)
    ensures
        contract_version(*final(storage)) == Some((name@, version@)),
        counter_cell(*final(storage)) == counter_cell(*old(storage)),
        sent_index(*final(storage)) == sent_index(*old(storage)),
        received_index(*final(storage)) == received_index(*old(storage)),
        unreadable_keys(*final(storage)) == unreadable_keys(*old(storage)),
{
    cw2::set_contract_version(storage, name, version).unwrap()
}

/// Calls `Map::load` on the index `sent_payments` with the key `(party, id)`.
/// The call gives the record under that key, or an error where the key is
/// missing or its value is no record; the error becomes `None`. The key is
/// built with a two-byte length of `party`, hence the bound on it.
#[verifier::external_body]
fn load_sent(storage: &MemoryStorage, party: &str, id: i32) -> (r: Option<Record>)
    requires
        is_address(party@),
    ensures
        match r {
            Some(record) => sent_index(*storage).contains_key((party@, id as int))
                && record_data(record) == sent_index(*storage)[(party@, id as int)],
            None => !sent_index(*storage).contains_key((party@, id as int)),
        },
{
    cw_storage_plus::Map::<(&str, i32), Record>::new("sent_payments").load(storage, (party, id)).ok()
}

/// Calls `Map::load` on the index `received_payments` with the key
/// `(party, id)`; see `load_sent`.
#[verifier::external_body]
fn load_received(storage: &MemoryStorage, party: &str, id: i32) -> (r: Option<Record>)
    requires
        is_address(party@),
    ensures
        match r {
            Some(record) => received_index(*storage).contains_key((party@, id as int))
                && record_data(record) == received_index(*storage)[(party@, id as int)],
            None => !received_index(*storage).contains_key((party@, id as int)),
        },
{
    cw_storage_plus::Map::<(&str, i32), Record>::new("received_payments").load(storage, (party, id)).ok()
}

/// Calls `Map::save` on the index `sent_payments` with the key `(party, id)`.
/// The index then holds `record` under that key and is otherwise as before.
/// Only that one raw key is written: it lies in this index alone, and what
/// stands under it can be read back, so no key becomes unreadable. Writing a
/// record cannot fail.
#[verifier::external_body]
fn save_sent(storage: &mut MemoryStorage, party: &str, id: i32, record: &Record)
    requires
        is_address(party@),
    ensures
        sent_index(*final(storage)) == sent_index(*old(storage)).insert(
            (party@, id as int),
            record_data(*record),
        ),
        received_index(*final(storage)) == received_index(*old(storage)),
        counter_cell(*final(storage)) == counter_cell(*old(storage)),
        contract_version(*final(storage)) == contract_version(*old(storage)),
        unreadable_keys(*final(storage)).subset_of(unreadable_keys(*old(storage))),
{
    cw_storage_plus::Map::<(&str, i32), Record>::new("sent_payments").save(storage, (party, id), record).unwrap()
}

/// Calls `Map::save` on the index `received_payments` with the key
/// `(party, id)`; see `save_sent`.
#[verifier::external_body]
fn save_received(storage: &mut MemoryStorage, party: &str, id: i32, record: &Record)
    requires
        is_address(party@),
    ensures
        received_index(*final(storage)) == received_index(*old(storage)).insert(
            (party@, id as int),
            record_data(*record),
        ),
        sent_index(*final(storage)) == sent_index(*old(storage)),
        counter_cell(*final(storage)) == counter_cell(*old(storage)),
        contract_version(*final(storage)) == contract_version(*old(storage)),
        unreadable_keys(*final(storage)).subset_of(unreadable_keys(*old(storage))),
{
    cw_storage_plus::Map::<(&str, i32), Record>::new("received_payments").save(storage, (party, id), record).unwrap()
}

/// Calls `Prefix::range` on the part of the index `sent_payments` that
/// belongs to `party`, from `first` to `last`, both included, in ascending
/// order. Ids are stored so that the order of the raw keys is the order of
/// the ids. The call gives every record in that range, or an error at the
/// first raw key in it that is unreadable; the error becomes `None`.
#[verifier::external_body]
fn range_sent(storage: &MemoryStorage, party: &str, first: i32, last: i32) -> (r: Option<Vec<Record>>)
    requires
        is_address(party@),
    ensures
        r matches Some(list) ==> records_data(list@) == party_entries(
            sent_index(*storage),
            party@,
            first as int,
            last as int,
        ),
        unreadable_keys(*storage).is_empty() ==> r is Some,
{
    cw_storage_plus::Map::<(&str, i32), Record>::new("sent_payments")
        .prefix(party)
        .range(storage, Some(Bound::inclusive(first)), Some(Bound::inclusive(last)), Order::Ascending)
        .map(|item| item.map(|(_, record)| record))
        .collect::<Result<Vec<Record>, _>>()
        .ok()
}

/// Calls `Prefix::range` on the part of the index `received_payments` that
/// belongs to `party`; see `range_sent`.
#[verifier::external_body]
fn range_received(storage: &MemoryStorage, party: &str, first: i32, last: i32) -> (r: Option<Vec<Record>>)
    requires
        is_address(party@),
    ensures
        r matches Some(list) ==> records_data(list@) == party_entries(
            received_index(*storage),
            party@,
            first as int,
            last as int,
        ),
        unreadable_keys(*storage).is_empty() ==> r is Some,
{
    cw_storage_plus::Map::<(&str, i32), Record>::new("received_payments")
        .prefix(party)
        .range(storage, Some(Bound::inclusive(first)), Some(Bound::inclusive(last)), Order::Ascending)
        .map(|item| item.map(|(_, record)| record))
        .collect::<Result<Vec<Record>, _>>()
        .ok()
}

/// Which of the two indexes of the ledger is meant.
#[derive(Clone, Copy, Debug, PartialEq, Eq, Structural)]
pub enum Side {
    /// The index of payments by their sender.
    Sent,
    /// The index of payments by their receiver.
    Received,
}

/// What a `PaymentStore` holds: the counter cell, the two indexes and the
/// contract version.
#[verifier::ext_equal]
pub struct LedgerState {
    /// The number in the counter cell, if the cell is there.
    pub counter: Option<int>,
    /// The payments by sending party and id.
    pub sent: Map<(Seq<char>, int), PaymentData>,
    /// The payments by receiving party and id.
    pub received: Map<(Seq<char>, int), PaymentData>,
    /// The contract name and version, once written.
    pub version: Option<(Seq<char>, Seq<char>)>,
}

impl LedgerState {
    /// The index on the given side.
    pub open spec fn index(self, side: Side) -> Map<(Seq<char>, int), PaymentData> {
        match side {
            Side::Sent => self.sent,
            Side::Received => self.received,
        }
    }

    /// The id that was assigned last: the number in the counter cell, where
    /// the cell is there and the number is not negative.
    pub open spec fn last_id(self) -> Option<int> {
        match self.counter {
            Some(c) => if c >= 0 {
                Some(c)
            } else {
                None
            },
            None => None,
        }
    }

    /// What a lookup of `(party, id)` on `side` finds: the record, the error
    /// `NotFound` where the key is missing, or the error `StorageCorruption`
    /// where a party of the record under the key is no address.
    pub open spec fn lookup(
        self,
        side: Side,
        party: Seq<char>,
        id: int,
    ) -> Result<PaymentData, ContractError> {
        if !self.index(side).contains_key((party, id)) {
            Err(ContractError::NotFound)
        } else if !self.index(side)[(party, id)].sound() {
            Err(ContractError::StorageCorruption)
        } else {
            Ok(self.index(side)[(party, id)])
        }
    }

    /// The payments of `party` on `side` with an id from 1 to `last`, by
    /// ascending id.
    pub open spec fn listing(self, side: Side, party: Seq<char>, last: int) -> Seq<PaymentData> {
        party_entries(self.index(side), party, 1, last)
    }

    /// The state after `payment` was written under `id` to both indexes: to
    /// the sent index under its sender, to the received index under its
    /// receiver.
    pub open spec fn with_payment(self, id: int, payment: PaymentData) -> LedgerState {
        LedgerState {
            sent: self.sent.insert((payment.sender, id), payment),
            received: self.received.insert((payment.receiver, id), payment),
            ..self
        }
    }

    /// Whether every record in both indexes names addresses as its parties.
    pub open spec fn all_sound(self) -> bool {
        &&& forall|k: (Seq<char>, int)| #[trigger] self.sent.contains_key(k) ==> self.sent[k].sound()
        &&& forall|k: (Seq<char>, int)| #[trigger]
            self.received.contains_key(k) ==> self.received[k].sound()
    }

    /// Whether `payment`, found under `(party, id)` in an index keyed by the
    /// party that `role` picks, is a payment as the ledger writes them: it
    /// stands under its own party and id, the id was assigned, sender and
    /// receiver are two different addresses, and it is not both claimed and
    /// reverted.
    pub open spec fn keeps(
        self,
        party: Seq<char>,
        id: int,
        payment: PaymentData,
        role: spec_fn(PaymentData) -> Seq<char>,
    ) -> bool {
        &&& role(payment) == party
        &&& payment.payment_id == id
        &&& self.last_id() matches Some(last) && 1 <= id <= last
        &&& payment.sound()
        &&& payment.sender != payment.receiver
        &&& payment.amount == payment.amount_in_coins.amount
        &&& !(payment.claimed && payment.reverted)
    }

    /// The invariant of the ledger: the counter can be read, every record
    /// is a payment as the ledger writes them, and the two indexes hold the
    /// same payments, each under its sender in the one and under its
    /// receiver in the other.
    pub open spec fn coherent(self) -> bool {
        &&& self.last_id() is Some
        &&& forall|party: Seq<char>, id: int| #[trigger]
            self.sent.contains_key((party, id)) ==> {
                let payment = self.sent[(party, id)];
                &&& self.keeps(party, id, payment, |p: PaymentData| p.sender)
                &&& self.received.contains_key((payment.receiver, id))
                &&& self.received[(payment.receiver, id)] == payment
            }
        &&& forall|party: Seq<char>, id: int| #[trigger]
            self.received.contains_key((party, id)) ==> {
                let payment = self.received[(party, id)];
                &&& self.keeps(party, id, payment, |p: PaymentData| p.receiver)
                &&& self.sent.contains_key((payment.sender, id))
                &&& self.sent[(payment.sender, id)] == payment
            }
    }
}

/// Whether `r` is the error `e`.
pub open spec fn fails_with<T>(r: Result<T, ContractError>, e: ContractError) -> bool {
    r matches Err(x) && x == e
}

/// Whether every record of `list` names addresses as its parties.
pub open spec fn each_sound(list: Seq<PaymentData>) -> bool {
    forall|i: int| 0 <= i < list.len() ==> (#[trigger] list[i]).sound()
}

/// In a state whose records all name addresses, so does every record of a
/// listing.
pub proof fn lemma_listing_sound(state: LedgerState, side: Side, party: Seq<char>, last: int)
    requires
        state.all_sound(),
    ensures
        each_sound(state.listing(side, party, last)),
    decreases last,
{
    if last >= 1 {
        lemma_listing_sound(state, side, party, last - 1);
        if state.index(side).contains_key((party, last)) {
            assert(state.index(side)[(party, last)].sound());
        }
    }
}

/// Turns a payment into the record that is written for it.
fn encode(payment: &Payment) -> (record: Record)
    ensures
        record_data(record) == payment@,
{
    (
        payment.sender.as_str().to_owned(),
        payment.receiver.as_str().to_owned(),
        payment.amount,
        (payment.amount_in_coins.denom.clone(), payment.amount_in_coins.amount),
        payment.deadline,
        payment.claimed,
        payment.reverted,
        payment.payment_id,
    )
}

/// Turns a stored record into a payment, where both of its parties are
/// addresses.
fn decode(record: &Record) -> (r: Option<Payment>)
    ensures
        match r {
            Some(payment) => record_data(*record).sound() && payment@ == record_data(*record),
            None => !record_data(*record).sound(),
        },
{
    let sender = match Addr::new(record.0.clone()) {
        Some(addr) => addr,
        None => {
            return None;
        },
    };
    let receiver = match Addr::new(record.1.clone()) {
        Some(addr) => addr,
        None => {
            return None;
        },
    };
    Some(
        Payment {
            sender,
            receiver,
            amount: record.2,
            amount_in_coins: Coin { denom: record.3.0.clone(), amount: record.3.1 },
            deadline: record.4,
            claimed: record.5,
            reverted: record.6,
            payment_id: record.7,
        },
    )
}

/// Turns stored records into payments, or fails at the first record with a
/// party that is no address.
fn decode_all(records: &Vec<Record>) -> (r: Option<Vec<Payment>>)
    ensures
        match r {
            Some(list) => each_sound(records_data(records@)) && Payment::views(list@)
                == records_data(records@),
            None => !each_sound(records_data(records@)),
        },
{
    let mut list: Vec<Payment> = Vec::new();
    let mut i: usize = 0;
    while i < records.len()
        invariant
            i <= records.len(),
            list@.len() == i,
            forall|j: int| 0 <= j < i ==> (#[trigger] list@[j])@ == record_data(records@[j]),
            forall|j: int| 0 <= j < i ==> (#[trigger] records_data(records@)[j]).sound(),
        decreases records.len() - i,
    {
        match decode(&records[i]) {
            Some(payment) => {
                list.push(payment);
            },
            None => {
                assert(!records_data(records@)[i as int].sound());
                return None;
            },
        }
        i += 1;
    }
    assert(Payment::views(list@) =~= records_data(records@));
    Some(list)
}

/// The ledger's store: a counter cell and the sent and received indexes of
/// payments, all in one storage that this value owns.
pub struct PaymentStore {
    storage: MemoryStorage,
}

impl View for PaymentStore {
    type V = LedgerState;

    closed spec fn view(&self) -> LedgerState {
        LedgerState {
            counter: match counter_cell(self.storage) {
                Some(c) => Some(c as int),
                None => None,
            },
            sent: sent_index(self.storage),
            received: received_index(self.storage),
            version: contract_version(self.storage),
        }
    }
}

impl PaymentStore {
    /// The raw keys inside the two indexes that are not records of them. A
    /// store that only this ledger has written has none.
    pub closed spec fn unreadable(&self) -> Set<Seq<u8>> {
        unreadable_keys(self.storage)
    }

    /// Whether every listing of the store can be read: no raw key inside
    /// an index is unreadable and every record names addresses.
    pub open spec fn intact(&self) -> bool {
        self.unreadable().is_empty() && self@.all_sound()
    }

    /// The storage that the store keeps everything in.
    pub closed spec fn storage(&self) -> MemoryStorage {
        self.storage
    }

    /// The store that keeps everything in `storage`, whatever `storage`
    /// holds already.
    pub fn from_storage(storage: MemoryStorage) -> (store: PaymentStore)
        ensures
            store.storage() == storage,
    {
        PaymentStore { storage }
    }

    /// Gives up the store for the storage that it kept everything in.
    pub fn into_storage(self) -> (storage: MemoryStorage)
        ensures
            storage == self.storage(),
    {
        self.storage
    }

    /// A store of its own, with nothing in it: no counter yet, no payment, no
    /// version.
    pub fn new() -> (store: PaymentStore)
        ensures
            store@.counter is None,
            store@.sent.is_empty(),
            store@.received.is_empty(),
            store@.version is None,
            store.intact(),
    {
        PaymentStore { storage: empty_storage() }
    }

    /// Reads the counter: the id that was assigned last. Fails with
    /// `StorageCorruption` where the cell is missing or holds a negative
    /// number.
    pub fn get_counter(&self) -> (r: Result<i32, ContractError>)
        ensures
            match r {
                Ok(c) => self@.last_id() == Some(c as int),
                Err(e) => self@.last_id() is None && e == ContractError::StorageCorruption,
            },
    {
        match load_counter(&self.storage) {
            Some(c) => {
                if c >= 0 {
                    Ok(c)
                } else {
                    Err(ContractError::StorageCorruption)
                }
            },
            None => Err(ContractError::StorageCorruption),
        }
    }

    /// Sets the counter to zero: no id is assigned yet.
    pub fn reset_counter(&mut self)
        ensures
            final(self)@ == (LedgerState { counter: Some(0int), ..old(self)@ }),
            final(self).unreadable() == old(self).unreadable(),
            old(self).intact() ==> final(self).intact(),
    {
        save_counter(&mut self.storage, 0);
    }

    /// Assigns the next id: the counter plus one, which becomes the counter.
    /// Fails with `StorageCorruption`, and writes nothing, where the counter
    /// cannot be read or has no successor.
    pub fn next_id(&mut self) -> (r: Result<i32, ContractError>)
        ensures
            match r {
                Ok(id) => old(self)@.last_id() == Some(id - 1) && final(self)@ == (LedgerState {
                    counter: Some(id as int),
                    ..old(self)@
                }),
                Err(e) => e == ContractError::StorageCorruption && final(self)@ == old(self)@ && (
                old(self)@.last_id() matches Some(c) ==> c >= i32::MAX),
            },
            final(self).unreadable() == old(self).unreadable(),
            old(self).intact() ==> final(self).intact(),
    {
        match self.get_counter() {
            Ok(c) => {
                if c < i32::MAX {
                    let id: i32 = c + 1;
                    save_counter(&mut self.storage, id);
                    Ok(id)
                } else {
                    Err(ContractError::StorageCorruption)
                }
            },
            Err(e) => Err(e),
        }
    }

    /// Writes the contract name and version.
    pub fn set_version(&mut self, name: &str, version: &str)
        ensures
            final(self)@ == (LedgerState { version: Some((name@, version@)), ..old(self)@ }),
            final(self).unreadable() == old(self).unreadable(),
            old(self).intact() ==> final(self).intact(),
    {
        save_version(&mut self.storage, name, version);
    }

    /// Looks up the payment that `side` holds under `(party, id)`.
    pub fn get(&self, side: Side, party: &Addr, id: i32) -> (r: Result<Payment, ContractError>)
        ensures
            match self@.lookup(side, party@, id as int) {
                Ok(found) => r matches Ok(payment) && payment@ == found,
                Err(e) => fails_with(r, e),
            },
    {
        let loaded = match side {
            Side::Sent => load_sent(&self.storage, party.as_str(), id),
            Side::Received => load_received(&self.storage, party.as_str(), id),
        };
        match loaded {
            Some(record) => match decode(&record) {
                Some(payment) => Ok(payment),
                None => Err(ContractError::StorageCorruption),
            },
            None => Err(ContractError::NotFound),
        }
    }

    /// Writes `payment` under `id` to both indexes at once: to the sent index
    /// under its sender and to the received index under its receiver. No
    /// other entry changes.
    pub fn put(&mut self, id: i32, payment: &Payment)
        ensures
            final(self)@ == old(self)@.with_payment(id as int, payment@),
            final(self).unreadable().subset_of(old(self).unreadable()),
            payment@.sound(),
            old(self).intact() ==> final(self).intact(),
    {
        let record = encode(payment);
        save_sent(&mut self.storage, payment.sender.as_str(), id, &record);
        save_received(&mut self.storage, payment.receiver.as_str(), id, &record);
    }

    /// Whether `r` is what listing the payments of `party` on `side` gives:
    /// the payments with an id from 1 to the counter, by ascending id, or
    /// the error `StorageCorruption`. The error is owed where the counter
    /// cannot be read or a record in the range names a party that is no
    /// address; the list is owed where, besides, no raw key is unreadable.
    pub open spec fn listed(
        &self,
        side: Side,
        party: Seq<char>,
        r: Result<Vec<Payment>, ContractError>,
    ) -> bool {
        match r {
            Ok(list) => self@.last_id() matches Some(last) && Payment::views(list@)
                == self@.listing(side, party, last) && each_sound(self@.listing(side, party, last)),
            Err(e) => e == ContractError::StorageCorruption && !(self@.last_id() matches Some(last)
                && self.unreadable().is_empty() && each_sound(self@.listing(side, party, last))),
        }
    }

    /// Lists the payments of `party` on `side` with an id from 1 to the
    /// counter, by ascending id.
    pub fn range_by_party(
        &self,
        side: Side,
        party: &Addr,
    ) -> (r: Result<Vec<Payment>, ContractError>)
        ensures
            self.listed(side, party@, r),
            self.intact() && self@.last_id() is Some ==> r is Ok,
    {
        proof {
            if self@.last_id() is Some && self@.all_sound() {
                lemma_listing_sound(self@, side, party@, self@.last_id().unwrap());
            }
        }
        let last = match self.get_counter() {
            Ok(c) => c,
            Err(e) => {
                return Err(e);
            },
        };
        let ranged = match side {
            Side::Sent => range_sent(&self.storage, party.as_str(), 1, last),
            Side::Received => range_received(&self.storage, party.as_str(), 1, last),
        };
        match ranged {
            Some(records) => match decode_all(&records) {
                Some(list) => Ok(list),
                None => Err(ContractError::StorageCorruption),
            },
            None => Err(ContractError::StorageCorruption),
        }
    }
}

} // verus!
