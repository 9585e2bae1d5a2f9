//! Display values for the explorer's pages, built from database rows.

use crate::codec::{hex_encode, hex_text, short_hex, short_tail};
use crate::db_entities::{accounts, blocks, layers, rewards, transactions};
use crate::timefmt::{nanos_to_millis, timestamp_text, utc_text_of_millis};
use vstd::prelude::*;

verus! {

/// Rows on one page of an account's transactions or rewards.
pub const PAGE_SIZE: u64 = 20;

/// Rows in each list of the home page.
pub const HOME_LIST_LEN: u64 = 10;

/// Bytes in a transaction's nonce.
pub const NONCE_BYTES: usize = 8;

/// A field of a stored record.
#[derive(Clone, Copy, Debug, PartialEq, Eq, Structural)]
pub enum RecordField {
    Tx,
    Header,
    Result,
    Layer,
    Nonce,
    Timestamp,
}

/// Why a stored record cannot be shown.
#[derive(Clone, Copy, Debug, PartialEq, Eq, Structural)]
pub enum ViewError {
    /// A field that the view needs is empty.
    Missing(RecordField),
    /// A field holds a value that does not decode.
    Malformed(RecordField),
}

/// Powers of 256.
pub open spec fn byte_pow(n: nat) -> nat
    decreases n,
{
    if n == 0 {
        1
    } else {
        256 * byte_pow((n - 1) as nat)
    }
}

/// The unsigned integer that bytes write, most significant first.
pub open spec fn be_value(s: Seq<u8>) -> nat
    decreases s.len(),
{
    if s.len() == 0 {
        0
    } else {
        be_value(s.drop_last()) * 256 + s.last() as nat
    }
}

proof fn lemma_byte_pow_monotone(a: nat, b: nat)
    requires
        a <= b,
    ensures
        byte_pow(a) <= byte_pow(b),
    decreases b - a,
{
    if a < b {
        lemma_byte_pow_monotone(a, (b - 1) as nat);
    }
}

/// Reads the first eight bytes as a big-endian integer; `None` when there
/// are fewer than eight.
pub fn be_u64_prefix(bytes: &[u8]) -> (r: Option<u64>)
    ensures
        bytes@.len() < NONCE_BYTES ==> r is None,
        bytes@.len() >= NONCE_BYTES ==> r == Some(be_value(bytes@.take(NONCE_BYTES as int)) as u64),
        bytes@.len() >= NONCE_BYTES ==> be_value(bytes@.take(NONCE_BYTES as int)) <= u64::MAX,
{
    if bytes.len() < NONCE_BYTES {
        return None;
    }
    proof {
        reveal_with_fuel(byte_pow, 9);
        assert(byte_pow(8) == 0x1_0000_0000_0000_0000);
    }
    let mut acc: u64 = 0;
    let mut i: usize = 0;
    assert(bytes@.take(0) =~= Seq::<u8>::empty());
    while i < NONCE_BYTES
        invariant
            i <= NONCE_BYTES <= bytes@.len(),
            acc as int == be_value(bytes@.take(i as int)),
            (acc as int) < byte_pow(i as nat),
            byte_pow(8) == 0x1_0000_0000_0000_0000,
        decreases NONCE_BYTES - i,
    {
        let b = bytes[i];
        proof {
            lemma_byte_pow_monotone((i + 1) as nat, 8);
            let p = byte_pow(i as nat);
            assert((acc as int) * 256 + (b as int) < p * 256) by (nonlinear_arith)
                requires
                    (acc as int) < p,
                    (b as int) < 256,
            ;
            assert(bytes@.take(i + 1).drop_last() =~= bytes@.take(i as int));
        }
        acc = acc * 256 + b as u64;
        i = i + 1;
    }
    Some(acc)
}

/// The bytes of an optional column, empty when it is null.
pub open spec fn bytes_or_empty(b: Option<Vec<u8>>) -> Seq<u8> {
    match b {
        Some(v) => v@,
        None => Seq::empty(),
    }
}

/// Hex text of an optional column, empty when it is null.
pub fn hex_or_empty(b: &Option<Vec<u8>>) -> (r: String)
    ensures
        r@ == hex_text(bytes_or_empty(*b)),
{
    match b {
        Some(v) => hex_encode(v.as_slice()),
        None => String::new(),
    }
}

/// Short hex text of an optional column: its last six bytes, empty when null.
pub fn short_hex_or_empty(b: &Option<Vec<u8>>) -> (r: String)
    ensures
        r@ == hex_text(short_tail(bytes_or_empty(*b))),
{
    match b {
        Some(v) => short_hex(v.as_slice()),
        None => {
            assert(short_tail(Seq::<u8>::empty()) =~= Seq::<u8>::empty());
            String::new()
        },
    }
}

/// A stored flag: set only when it holds 1.
pub fn flag_is_set(v: Option<i32>) -> (r: bool)
    ensures
        r == (v == Some(1i32)),
{
    match v {
        Some(x) => x == 1,
        None => false,
    }
}

/// The offset of the page after the one that starts at `skip` (absent: 0).
pub fn next_page_skip(skip: Option<u64>) -> (r: u64)
    ensures
        r == (match skip {
            Some(s) => if s as int + PAGE_SIZE <= u64::MAX { (s + PAGE_SIZE) as u64 } else { u64::MAX },
            None => PAGE_SIZE,
        }),
{
    match skip {
        Some(s) => s.saturating_add(PAGE_SIZE),
        None => PAGE_SIZE,
    }
}

/// A transaction as the pages show it.
#[derive(Clone, Debug, PartialEq, Eq)]
pub struct TransactionView {
    pub tx: String,
    pub header: String,
    pub result: String,
    pub layer: i32,
    pub block: String,
    pub principal: String,
    pub principal_short: String,
    pub nonce: u64,
    pub timestamp: String,
}

/// The first reason, in field order, why a transaction row cannot be shown.
pub open spec fn transaction_problem(row: transactions::Model) -> Option<ViewError> {
    if row.tx is None {
        Some(ViewError::Missing(RecordField::Tx))
    } else if row.header is None {
        Some(ViewError::Missing(RecordField::Header))
    } else if row.result is None {
        Some(ViewError::Missing(RecordField::Result))
    } else if row.layer is None {
        Some(ViewError::Missing(RecordField::Layer))
    } else if row.nonce is None {
        Some(ViewError::Missing(RecordField::Nonce))
    } else if row.nonce->Some_0@.len() < NONCE_BYTES {
        Some(ViewError::Malformed(RecordField::Nonce))
    } else if utc_text_of_millis(nanos_to_millis(row.timestamp as int)) is None {
        Some(ViewError::Malformed(RecordField::Timestamp))
    } else {
        None
    }
}

/// Builds the display form of a transaction row.
pub fn transaction_view(row: &transactions::Model) -> (r: Result<TransactionView, ViewError>)
    ensures
        r is Err <==> transaction_problem(*row) is Some,
        r matches Err(e) ==> transaction_problem(*row) == Some(e),
        r matches Ok(v) ==> {
            &&& v.tx@ == hex_text(row.tx->Some_0@)
            &&& v.header@ == hex_text(row.header->Some_0@)
            &&& v.result@ == hex_text(row.result->Some_0@)
            &&& v.layer == row.layer->Some_0
            &&& v.block@ == hex_text(bytes_or_empty(row.block))
            &&& v.principal@ == hex_text(bytes_or_empty(row.principal))
            &&& v.principal_short@ == hex_text(short_tail(bytes_or_empty(row.principal)))
            &&& v.nonce == be_value(row.nonce->Some_0@.take(NONCE_BYTES as int))
            &&& Some(v.timestamp@) == utc_text_of_millis(nanos_to_millis(row.timestamp as int))
        },
{
    let tx = match &row.tx {
        Some(b) => hex_encode(b.as_slice()),
        None => { return Err(ViewError::Missing(RecordField::Tx)); },
    };
    let header = match &row.header {
        Some(b) => hex_encode(b.as_slice()),
        None => { return Err(ViewError::Missing(RecordField::Header)); },
    };
    let result = match &row.result {
        Some(b) => hex_encode(b.as_slice()),
        None => { return Err(ViewError::Missing(RecordField::Result)); },
    };
    let layer = match row.layer {
        Some(l) => l,
        None => { return Err(ViewError::Missing(RecordField::Layer)); },
    };
    let nonce = match &row.nonce {
        Some(b) => match be_u64_prefix(b.as_slice()) {
            Some(n) => n,
            None => { return Err(ViewError::Malformed(RecordField::Nonce)); },
        },
        None => { return Err(ViewError::Missing(RecordField::Nonce)); },
    };
    let timestamp = match timestamp_text(row.timestamp) {
        Some(t) => t,
        None => { return Err(ViewError::Malformed(RecordField::Timestamp)); },
    };
    Ok(TransactionView {
        tx,
        header,
        result,
        layer,
        block: hex_or_empty(&row.block),
        principal: hex_or_empty(&row.principal),
        principal_short: short_hex_or_empty(&row.principal),
        nonce,
        timestamp,
    })
}

/// A reward as the pages show it; amounts are in the smallest unit.
#[derive(Clone, Debug, PartialEq, Eq)]
pub struct RewardView {
    pub coinbase: String,
    pub coinbase_short: String,
    pub layer: i32,
    pub total_reward: i64,
    pub layer_reward: i64,
}

/// Builds the display form of a reward row; a null amount shows as 0.
pub fn reward_view(row: &rewards::Model) -> (r: RewardView)
    ensures
        r.coinbase@ == hex_text(row.coinbase@),
        r.coinbase_short@ == hex_text(short_tail(row.coinbase@)),
        r.layer == row.layer,
        r.total_reward == (match row.total_reward { Some(v) => v, None => 0 }),
        r.layer_reward == (match row.layer_reward { Some(v) => v, None => 0 }),
{
    RewardView {
        coinbase: hex_encode(row.coinbase.as_slice()),
        coinbase_short: short_hex(row.coinbase.as_slice()),
        layer: row.layer,
        total_reward: match row.total_reward {
            Some(v) => v,
            None => 0,
        },
        layer_reward: match row.layer_reward {
            Some(v) => v,
            None => 0,
        },
    }
}

/// A layer as the pages show it.
#[derive(Clone, Debug, PartialEq, Eq)]
pub struct LayerView {
    pub id: i32,
    pub processed: bool,
    pub hash: String,
    pub state_hash: String,
    pub applied_block: String,
}

/// Builds the full display form of a layer row, for the layer's own page.
pub fn layer_detail(row: &layers::Model) -> (r: LayerView)
    ensures
        r.id == row.id,
        r.processed == (row.processed == Some(1i32)),
        r.hash@ == hex_text(bytes_or_empty(row.aggregated_hash)),
        r.state_hash@ == hex_text(bytes_or_empty(row.state_hash)),
        r.applied_block@ == hex_text(bytes_or_empty(row.applied_block)),
{
    LayerView {
        id: row.id,
        processed: flag_is_set(row.processed),
        hash: hex_or_empty(&row.aggregated_hash),
        state_hash: hex_or_empty(&row.state_hash),
        applied_block: hex_or_empty(&row.applied_block),
    }
}

/// Builds the short display form of a layer row, for the home page list.
pub fn layer_summary(row: &layers::Model) -> (r: LayerView)
    ensures
        r.id == row.id,
        r.processed == (row.processed == Some(1i32)),
        r.hash@ == hex_text(short_tail(bytes_or_empty(row.aggregated_hash))),
        r.state_hash@ == hex_text(short_tail(bytes_or_empty(row.state_hash))),
        r.applied_block@ == hex_text(short_tail(bytes_or_empty(row.applied_block))),
{
    LayerView {
        id: row.id,
        processed: flag_is_set(row.processed),
        hash: short_hex_or_empty(&row.aggregated_hash),
        state_hash: short_hex_or_empty(&row.state_hash),
        applied_block: short_hex_or_empty(&row.applied_block),
    }
}

/// A block as the pages show it.
#[derive(Clone, Debug, PartialEq, Eq)]
pub struct BlockView {
    pub id: String,
    pub validity: bool,
    pub block_data: String,
}

/// Builds the display form of a block row.
pub fn block_view(row: &blocks::Model) -> (r: BlockView)
    ensures
        r.id@ == hex_text(row.id@),
        r.validity == (row.validity == Some(1i32)),
        r.block_data@ == hex_text(bytes_or_empty(row.block)),
{
    BlockView {
        id: hex_encode(row.id.as_slice()),
        validity: flag_is_set(row.validity),
        block_data: hex_or_empty(&row.block),
    }
}

/// An account as the pages show it; the balance is in the smallest unit.
#[derive(Clone, Debug, PartialEq, Eq)]
pub struct AccountView {
    pub address: String,
    pub balance: i64,
    pub next_nonce: i64,
    pub template: String,
    pub state: String,
}

/// Builds the display form of an account row.
pub fn account_view(row: &accounts::Model) -> (r: AccountView)
    ensures
        r.address@ == hex_text(row.address@),
        r.balance == row.balance,
        r.next_nonce == row.next_nonce,
        r.template@ == hex_text(bytes_or_empty(row.template)),
        r.state@ == hex_text(bytes_or_empty(row.state)),
{
    AccountView {
        address: hex_encode(row.address.as_slice()),
        balance: row.balance,
        next_nonce: row.next_nonce,
        template: hex_or_empty(&row.template),
        state: hex_or_empty(&row.state),
    }
}

} // verus!
