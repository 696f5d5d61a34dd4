use vstd::prelude::*;

verus! {

/// The life cycle of an invoice.
#[derive(Clone, Copy, Debug, PartialEq, Eq, Structural)]
pub enum InvoiceStatus {
    Created,
    Listed,
    Funded,
    Active,
    Confirmed,
    Repaid,
    Defaulted,
}

/// An invoice as the invoice contract stores it. Identifiers are 32-byte
/// values; accounts and assets are given by their strkeys.
#[derive(Clone, Debug)]
pub struct Invoice {
    pub id: [u8; 32],
    pub issuer: String,
    pub buyer: String,
    pub face_value: u128,
    pub discount_bps: u32,
    pub funded_amount: u128,
    pub due_date: u64,
    pub status: InvoiceStatus,
    pub created_at: u64,
    pub funded_at: Option<u64>,
    pub shipped_at: Option<u64>,
    pub issuer_confirmed: bool,
    pub buyer_confirmed: bool,
    pub repaid_at: Option<u64>,
    pub funding_asset: String,
    pub funding_pool: Option<String>,
}

/// The keys under which the invoice contract keeps its state.
#[derive(Clone, Debug)]
pub enum DataKey {
    Admin,
    RegistryContract,
    PoolContract,
    Counter,
    Invoice([u8; 32]),
    InvoicesByIssuer(String),
    InvoicesByBuyer(String),
    InvoicesByStatus(u32),
}

/// Byte `i` (0 = most significant) of the big-endian encoding of `value`.
pub open spec fn be_byte(value: u64, i: int) -> u8 {
    ((value >> ((7 - i) * 8) as u64) & 0xff) as u8
}

/// The invoice identifier derived from a ledger timestamp: the timestamp's
/// eight big-endian bytes, followed by zeros.
pub open spec fn invoice_id_for(timestamp: u64) -> Seq<u8> {
    Seq::new(32, |i: int| if i < 8 { be_byte(timestamp, i) } else { 0u8 })
}

/// The identifier's bytes, stated by arithmetic: byte `k` of the first eight
/// is `(timestamp / 256^(7-k)) % 256`, the other 24 are zero, and the first
/// eight read back as a big-endian number give the timestamp. Hence distinct
/// timestamps give distinct identifiers.
pub proof fn lemma_invoice_id_bytes(timestamp: u64, other: u64)
    ensures
        invoice_id_for(timestamp).len() == 32,
        invoice_id_for(timestamp)[0] == (timestamp / 0x100_0000_0000_0000) % 256,
        invoice_id_for(timestamp)[1] == (timestamp / 0x1_0000_0000_0000) % 256,
        invoice_id_for(timestamp)[2] == (timestamp / 0x100_0000_0000) % 256,
        invoice_id_for(timestamp)[3] == (timestamp / 0x1_0000_0000) % 256,
        invoice_id_for(timestamp)[4] == (timestamp / 0x100_0000) % 256,
        invoice_id_for(timestamp)[5] == (timestamp / 0x1_0000) % 256,
        invoice_id_for(timestamp)[6] == (timestamp / 0x100) % 256,
        invoice_id_for(timestamp)[7] == timestamp % 256,
        forall|i: int| 8 <= i < 32 ==> #[trigger] invoice_id_for(timestamp)[i] == 0,
        invoice_id_for(timestamp)[0] * 0x100_0000_0000_0000 + invoice_id_for(timestamp)[1]
            * 0x1_0000_0000_0000 + invoice_id_for(timestamp)[2] * 0x100_0000_0000
            + invoice_id_for(timestamp)[3] * 0x1_0000_0000 + invoice_id_for(timestamp)[4]
            * 0x100_0000 + invoice_id_for(timestamp)[5] * 0x1_0000 + invoice_id_for(timestamp)[6]
            * 0x100 + invoice_id_for(timestamp)[7] == timestamp,
        timestamp != other ==> invoice_id_for(timestamp) != invoice_id_for(other),
{
    lemma_be_bytes(timestamp);
    lemma_be_bytes(other);
    if timestamp != other {
        assert(invoice_id_for(timestamp)[0] != invoice_id_for(other)[0]
            || invoice_id_for(timestamp)[1] != invoice_id_for(other)[1]
            || invoice_id_for(timestamp)[2] != invoice_id_for(other)[2]
            || invoice_id_for(timestamp)[3] != invoice_id_for(other)[3]
            || invoice_id_for(timestamp)[4] != invoice_id_for(other)[4]
            || invoice_id_for(timestamp)[5] != invoice_id_for(other)[5]
            || invoice_id_for(timestamp)[6] != invoice_id_for(other)[6]
            || invoice_id_for(timestamp)[7] != invoice_id_for(other)[7]);
    }
}

proof fn lemma_be_bytes(t: u64)
    ensures
        invoice_id_for(t).len() == 32,
        invoice_id_for(t)[0] == (t / 0x100_0000_0000_0000) % 256,
        invoice_id_for(t)[1] == (t / 0x1_0000_0000_0000) % 256,
        invoice_id_for(t)[2] == (t / 0x100_0000_0000) % 256,
        invoice_id_for(t)[3] == (t / 0x1_0000_0000) % 256,
        invoice_id_for(t)[4] == (t / 0x100_0000) % 256,
        invoice_id_for(t)[5] == (t / 0x1_0000) % 256,
        invoice_id_for(t)[6] == (t / 0x100) % 256,
        invoice_id_for(t)[7] == t % 256,
        forall|i: int| 8 <= i < 32 ==> #[trigger] invoice_id_for(t)[i] == 0,
        invoice_id_for(t)[0] * 0x100_0000_0000_0000 + invoice_id_for(t)[1] * 0x1_0000_0000_0000
            + invoice_id_for(t)[2] * 0x100_0000_0000 + invoice_id_for(t)[3] * 0x1_0000_0000
            + invoice_id_for(t)[4] * 0x100_0000 + invoice_id_for(t)[5] * 0x1_0000
            + invoice_id_for(t)[6] * 0x100 + invoice_id_for(t)[7] == t,
{
    assert(((t >> 56u64) & 0xff) == (t / 0x100_0000_0000_0000) % 256) by (bit_vector);
    assert(((t >> 48u64) & 0xff) == (t / 0x1_0000_0000_0000) % 256) by (bit_vector);
    assert(((t >> 40u64) & 0xff) == (t / 0x100_0000_0000) % 256) by (bit_vector);
    assert(((t >> 32u64) & 0xff) == (t / 0x1_0000_0000) % 256) by (bit_vector);
    assert(((t >> 24u64) & 0xff) == (t / 0x100_0000) % 256) by (bit_vector);
    assert(((t >> 16u64) & 0xff) == (t / 0x1_0000) % 256) by (bit_vector);
    assert(((t >> 8u64) & 0xff) == (t / 0x100) % 256) by (bit_vector);
    assert(((t >> 0u64) & 0xff) == t % 256) by (bit_vector);
    assert(((t >> 56u64) & 0xff) * 0x100_0000_0000_0000 + ((t >> 48u64) & 0xff) * 0x1_0000_0000_0000
        + ((t >> 40u64) & 0xff) * 0x100_0000_0000 + ((t >> 32u64) & 0xff) * 0x1_0000_0000
        + ((t >> 24u64) & 0xff) * 0x100_0000 + ((t >> 16u64) & 0xff) * 0x1_0000
        + ((t >> 8u64) & 0xff) * 0x100 + ((t >> 0u64) & 0xff) == t) by (bit_vector);
    assert(be_byte(t, 0) == ((t >> 56u64) & 0xff) as u8);
    assert(be_byte(t, 1) == ((t >> 48u64) & 0xff) as u8);
    assert(be_byte(t, 2) == ((t >> 40u64) & 0xff) as u8);
    assert(be_byte(t, 3) == ((t >> 32u64) & 0xff) as u8);
    assert(be_byte(t, 4) == ((t >> 24u64) & 0xff) as u8);
    assert(be_byte(t, 5) == ((t >> 16u64) & 0xff) as u8);
    assert(be_byte(t, 6) == ((t >> 8u64) & 0xff) as u8);
    assert(be_byte(t, 7) == ((t >> 0u64) & 0xff) as u8);
}

/// The identifier for an invoice made at ledger time `timestamp`: its first
/// eight bytes are the timestamp in big-endian order, the other 24 are zero.
pub fn generate_invoice_id(timestamp: u64) -> (id: [u8; 32])
    ensures
        id@ == invoice_id_for(timestamp),
{
    let mut arr = [0u8; 32];
    let mut i: usize = 0;
    while i < 8
        invariant
            i <= 8,
            arr@.len() == 32,
            forall|j: int| 0 <= j < i ==> arr@[j] == be_byte(timestamp, j),
            forall|j: int| 8 <= j < 32 ==> arr@[j] == 0u8,
        decreases 8 - i,
    {
        let shift: u64 = (56 - 8 * i) as u64;
        arr[i] = ((timestamp >> shift) & 0xff) as u8;
        i = i + 1;
    }
    assert(arr@ =~= invoice_id_for(timestamp));
    arr
}

} // verus!
