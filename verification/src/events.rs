use vstd::prelude::*;

verus! {

/// A value carried by a contract event, as a topic or as the data.
#[derive(Clone, Debug, PartialEq)]
pub enum EventValue {
    /// A symbol; the first topic of every event is its name.
    Symbol(String),
    /// A 32-byte identifier.
    Bytes32([u8; 32]),
    /// An account or contract, by strkey.
    Address(String),
    U128(u128),
    U32(u32),
    /// No value.
    Void,
}

/// An event that the invoice contract publishes: its topics, in order, and
/// its data.
#[derive(Clone, Debug, PartialEq)]
pub struct ContractEvent {
    pub topics: Vec<EventValue>,
    pub data: EventValue,
}

/// `v` is the symbol `name`.
pub open spec fn is_symbol(v: EventValue, name: Seq<char>) -> bool {
    v matches EventValue::Symbol(s) && s@ == name
}

/// `v` is the address with strkey `strkey`.
pub open spec fn is_address(v: EventValue, strkey: Seq<char>) -> bool {
    v matches EventValue::Address(s) && s@ == strkey
}

fn symbol(name: &str) -> (v: EventValue)
    ensures
        is_symbol(v, name@),
{
    EventValue::Symbol(name.to_owned())
}

fn address(strkey: &String) -> (v: EventValue)
    ensures
        is_address(v, strkey@),
{
    EventValue::Address(strkey.clone())
}

/// The event for a new invoice. Topics: `invoice_created`, the invoice id,
/// the issuer, the buyer, the funding asset; data: the face value.
pub fn invoice_created(
    invoice_id: &[u8; 32],
    issuer: &String,
    buyer: &String,
    face_value: u128,
    funding_asset: &String,
) -> (e: ContractEvent)
    ensures
        e.topics@.len() == 5,
        is_symbol(e.topics@[0], "invoice_created"@),
        e.topics@[1] == EventValue::Bytes32(*invoice_id),
        is_address(e.topics@[2], issuer@),
        is_address(e.topics@[3], buyer@),
        is_address(e.topics@[4], funding_asset@),
        e.data == EventValue::U128(face_value),
{
    let mut topics = Vec::new();
    topics.push(symbol("invoice_created"));
    topics.push(EventValue::Bytes32(*invoice_id));
    topics.push(address(issuer));
    topics.push(address(buyer));
    topics.push(address(funding_asset));
    ContractEvent { topics, data: EventValue::U128(face_value) }
}

/// The topics `name` and `invoice_id`.
fn name_and_id(name: &str, invoice_id: &[u8; 32]) -> (topics: Vec<EventValue>)
    ensures
        topics@.len() == 2,
        is_symbol(topics@[0], name@),
        topics@[1] == EventValue::Bytes32(*invoice_id),
{
    let mut topics = Vec::new();
    topics.push(symbol(name));
    topics.push(EventValue::Bytes32(*invoice_id));
    topics
}

/// The event for an invoice put up for financing. Topics: `invoice_listed`,
/// the invoice id; data: the discount in basis points.
pub fn invoice_listed(invoice_id: &[u8; 32], discount_bps: u32) -> (e: ContractEvent)
    ensures
        e.topics@.len() == 2,
        is_symbol(e.topics@[0], "invoice_listed"@),
        e.topics@[1] == EventValue::Bytes32(*invoice_id),
        e.data == EventValue::U32(discount_bps),
{
    ContractEvent {
        topics: name_and_id("invoice_listed", invoice_id),
        data: EventValue::U32(discount_bps),
    }
}

/// The event for a funded invoice. Topics: `invoice_funded`, the invoice id;
/// data: the funded amount.
pub fn invoice_funded(invoice_id: &[u8; 32], funded_amount: u128) -> (e: ContractEvent)
    ensures
        e.topics@.len() == 2,
        is_symbol(e.topics@[0], "invoice_funded"@),
        e.topics@[1] == EventValue::Bytes32(*invoice_id),
        e.data == EventValue::U128(funded_amount),
{
    ContractEvent {
        topics: name_and_id("invoice_funded", invoice_id),
        data: EventValue::U128(funded_amount),
    }
}

/// The event for shipped goods. Topics: `invoice_shipped`, the invoice id;
/// no data.
pub fn invoice_shipped(invoice_id: &[u8; 32]) -> (e: ContractEvent)
    ensures
        e.topics@.len() == 2,
        is_symbol(e.topics@[0], "invoice_shipped"@),
        e.topics@[1] == EventValue::Bytes32(*invoice_id),
        e.data == EventValue::Void,
{
    ContractEvent { topics: name_and_id("invoice_shipped", invoice_id), data: EventValue::Void }
}

/// The event for one party's delivery confirmation. Topics:
/// `delivery_confirmed`, the invoice id, the confirming party; no data.
pub fn delivery_confirmed(invoice_id: &[u8; 32], confirmer: &String) -> (e: ContractEvent)
    ensures
        e.topics@.len() == 3,
        is_symbol(e.topics@[0], "delivery_confirmed"@),
        e.topics@[1] == EventValue::Bytes32(*invoice_id),
        is_address(e.topics@[2], confirmer@),
        e.data == EventValue::Void,
{
    let mut topics = name_and_id("delivery_confirmed", invoice_id);
    topics.push(address(confirmer));
    ContractEvent { topics, data: EventValue::Void }
}

/// The event for delivery confirmed by both parties. Topics:
/// `both_confirmed`, the invoice id; no data.
pub fn both_confirmed(invoice_id: &[u8; 32]) -> (e: ContractEvent)
    ensures
        e.topics@.len() == 2,
        is_symbol(e.topics@[0], "both_confirmed"@),
        e.topics@[1] == EventValue::Bytes32(*invoice_id),
        e.data == EventValue::Void,
{
    ContractEvent { topics: name_and_id("both_confirmed", invoice_id), data: EventValue::Void }
}

/// The event for a repaid invoice. Topics: `invoice_repaid`, the invoice id;
/// data: the amount repaid.
pub fn invoice_repaid(invoice_id: &[u8; 32], amount: u128) -> (e: ContractEvent)
    ensures
        e.topics@.len() == 2,
        is_symbol(e.topics@[0], "invoice_repaid"@),
        e.topics@[1] == EventValue::Bytes32(*invoice_id),
        e.data == EventValue::U128(amount),
{
    ContractEvent {
        topics: name_and_id("invoice_repaid", invoice_id),
        data: EventValue::U128(amount),
    }
}

/// The event for a defaulted invoice. Topics: `invoice_defaulted`, the
/// invoice id; no data.
pub fn invoice_defaulted(invoice_id: &[u8; 32]) -> (e: ContractEvent)
    ensures
        e.topics@.len() == 2,
        is_symbol(e.topics@[0], "invoice_defaulted"@),
        e.topics@[1] == EventValue::Bytes32(*invoice_id),
        e.data == EventValue::Void,
{
    ContractEvent { topics: name_and_id("invoice_defaulted", invoice_id), data: EventValue::Void }
}

} // verus!
