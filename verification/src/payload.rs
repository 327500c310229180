//! Payload serialization: the leaf encodings delegated to the postcard
//! binary format, and the verified conversions between the crate's payload
//! types and the plain shapes handed to postcard.
//!
//! Postcard is trusted only through the small wrappers below; everything a
//! contract says about payload bytes is said through the `*_wire` names.

use vstd::prelude::*;

use crate::messages::BlockHeightRange;
use crate::messages::NetworkableTransactionPool;
use crate::messages::SealedBlockHeader;
use crate::messages::Transaction;
use crate::messages::TxId;

verus! {

/// The postcard encoding of a list of pairs of integers.
pub uninterp spec fn pairs_wire(items: Seq<(u64, u64)>) -> Seq<u8>;

/// The postcard encoding of a list of optional pairs of integers.
pub uninterp spec fn opt_pairs_wire(items: Seq<Option<(u64, u64)>>) -> Seq<u8>;

/// The postcard encoding of a list of integers.
pub uninterp spec fn words_wire(items: Seq<u64>) -> Seq<u8>;

/// Relies on postcard::to_allocvec for `Vec<(u64, u64)>`: the bytes are a
/// function of the items alone, and with the allocating output this type
/// always serializes (every write to the output succeeds).
#[verifier::external_body]
fn encode_pairs(items: &Vec<(u64, u64)>) -> (r: Vec<u8>)
    ensures
        r@ == pairs_wire(items@),
{
    postcard::to_allocvec(items).unwrap()
}

/// Relies on postcard::from_bytes for `Vec<(u64, u64)>`: decoding inverts
/// to_allocvec, so bytes that are exactly an encoding decode to the encoded
/// items.
#[verifier::external_body]
fn decode_pairs(bytes: &[u8]) -> (r: Option<Vec<(u64, u64)>>)
    ensures
        forall|items: Seq<(u64, u64)>|
            bytes@ == pairs_wire(items) ==> r is Some && r.unwrap()@ == items,
{
    postcard::from_bytes::<Vec<(u64, u64)>>(bytes).ok()
}

/// Relies on postcard::to_allocvec for `Vec<Option<(u64, u64)>>`; see
/// `encode_pairs` for why serialization of this type always succeeds.
#[verifier::external_body]
fn encode_opt_pairs(items: &Vec<Option<(u64, u64)>>) -> (r: Vec<u8>)
    ensures
        r@ == opt_pairs_wire(items@),
{
    postcard::to_allocvec(items).unwrap()
}

/// Relies on postcard::from_bytes for `Vec<Option<(u64, u64)>>`: decoding
/// inverts to_allocvec.
#[verifier::external_body]
fn decode_opt_pairs(bytes: &[u8]) -> (r: Option<Vec<Option<(u64, u64)>>>)
    ensures
        forall|items: Seq<Option<(u64, u64)>>|
            bytes@ == opt_pairs_wire(items) ==> r is Some && r.unwrap()@ == items,
{
    postcard::from_bytes::<Vec<Option<(u64, u64)>>>(bytes).ok()
}

/// Relies on postcard::to_allocvec for `Vec<u64>`; see `encode_pairs` for
/// why serialization of this type always succeeds.
#[verifier::external_body]
fn encode_words(items: &Vec<u64>) -> (r: Vec<u8>)
    ensures
        r@ == words_wire(items@),
{
    postcard::to_allocvec(items).unwrap()
}

/// Relies on postcard::from_bytes for `Vec<u64>`: decoding inverts
/// to_allocvec.
#[verifier::external_body]
fn decode_words(bytes: &[u8]) -> (r: Option<Vec<u64>>)
    ensures
        forall|items: Seq<u64>|
            bytes@ == words_wire(items) ==> r is Some && r.unwrap()@ == items,
{
    postcard::from_bytes::<Vec<u64>>(bytes).ok()
}

/// The pair of integers that stands for a header on the wire.
pub open spec fn header_pair(h: SealedBlockHeader) -> (u64, u64) {
    (h.height, h.time)
}

/// The pair of integers that stands for a transaction on the wire.
pub open spec fn tx_pair(t: Transaction) -> (u64, u64) {
    (t.id, t.size)
}

/// The optional pair that stands for a pool entry on the wire.
pub open spec fn pool_entry_pair(e: Option<NetworkableTransactionPool>) -> Option<(u64, u64)> {
    match e {
        Some(NetworkableTransactionPool::Transaction(t)) => Some(tx_pair(t)),
        None => None,
    }
}

pub open spec fn headers_as_pairs(hs: Seq<SealedBlockHeader>) -> Seq<(u64, u64)> {
    Seq::new(hs.len(), |i: int| header_pair(hs[i]))
}

pub open spec fn txs_as_pairs(ts: Seq<Transaction>) -> Seq<(u64, u64)> {
    Seq::new(ts.len(), |i: int| tx_pair(ts[i]))
}

pub open spec fn pool_as_opt_pairs(ps: Seq<Option<NetworkableTransactionPool>>) -> Seq<
    Option<(u64, u64)>,
> {
    Seq::new(ps.len(), |i: int| pool_entry_pair(ps[i]))
}

pub open spec fn ids_as_words(ids: Seq<TxId>) -> Seq<u64> {
    Seq::new(ids.len(), |i: int| ids[i].value)
}

pub open spec fn range_words(r: BlockHeightRange) -> Seq<u64> {
    seq![r.start as u64, r.end as u64]
}

/// The payload bytes of a list of headers.
pub open spec fn headers_wire(hs: Seq<SealedBlockHeader>) -> Seq<u8> {
    pairs_wire(headers_as_pairs(hs))
}

/// The payload bytes of a list of transactions.
pub open spec fn transactions_wire(ts: Seq<Transaction>) -> Seq<u8> {
    pairs_wire(txs_as_pairs(ts))
}

/// The payload bytes of a list of pool entries.
pub open spec fn pool_wire(ps: Seq<Option<NetworkableTransactionPool>>) -> Seq<u8> {
    opt_pairs_wire(pool_as_opt_pairs(ps))
}

/// The payload bytes of a list of transaction identifiers.
pub open spec fn tx_ids_wire(ids: Seq<TxId>) -> Seq<u8> {
    words_wire(ids_as_words(ids))
}

/// The payload bytes of a block-height range.
pub open spec fn range_wire(r: BlockHeightRange) -> Seq<u8> {
    words_wire(range_words(r))
}

fn headers_to_pairs(items: &Vec<SealedBlockHeader>) -> (r: Vec<(u64, u64)>)
    ensures
        r@ == headers_as_pairs(items@),
{
    let mut out: Vec<(u64, u64)> = Vec::new();
    let mut i: usize = 0;
    while i < items.len()
        invariant
            i <= items@.len(),
            out@.len() == i,
            forall|j: int| 0 <= j < i ==> out@[j] == header_pair(items@[j]),
        decreases items@.len() - i,
    {
        let h = items[i];
        out.push((h.height, h.time));
        i = i + 1;
    }
    proof {
        assert(out@ =~= headers_as_pairs(items@));
    }
    out
}

fn pairs_to_headers(items: &Vec<(u64, u64)>) -> (r: Vec<SealedBlockHeader>)
    ensures
        r@.len() == items@.len(),
        forall|j: int| 0 <= j < items@.len() ==> header_pair(r@[j]) == items@[j],
{
    let mut out: Vec<SealedBlockHeader> = Vec::new();
    let mut i: usize = 0;
    while i < items.len()
        invariant
            i <= items@.len(),
            out@.len() == i,
            forall|j: int| 0 <= j < i ==> header_pair(out@[j]) == items@[j],
        decreases items@.len() - i,
    {
        let p = items[i];
        out.push(SealedBlockHeader { height: p.0, time: p.1 });
        i = i + 1;
    }
    out
}

fn txs_to_pairs(items: &Vec<Transaction>) -> (r: Vec<(u64, u64)>)
    ensures
        r@ == txs_as_pairs(items@),
{
    let mut out: Vec<(u64, u64)> = Vec::new();
    let mut i: usize = 0;
    while i < items.len()
        invariant
            i <= items@.len(),
            out@.len() == i,
            forall|j: int| 0 <= j < i ==> out@[j] == tx_pair(items@[j]),
        decreases items@.len() - i,
    {
        let t = items[i];
        out.push((t.id, t.size));
        i = i + 1;
    }
    proof {
        assert(out@ =~= txs_as_pairs(items@));
    }
    out
}

fn pairs_to_txs(items: &Vec<(u64, u64)>) -> (r: Vec<Transaction>)
    ensures
        r@.len() == items@.len(),
        forall|j: int| 0 <= j < items@.len() ==> tx_pair(r@[j]) == items@[j],
{
    let mut out: Vec<Transaction> = Vec::new();
    let mut i: usize = 0;
    while i < items.len()
        invariant
            i <= items@.len(),
            out@.len() == i,
            forall|j: int| 0 <= j < i ==> tx_pair(out@[j]) == items@[j],
        decreases items@.len() - i,
    {
        let p = items[i];
        out.push(Transaction { id: p.0, size: p.1 });
        i = i + 1;
    }
    out
}

fn pool_to_opt_pairs(items: &Vec<Option<NetworkableTransactionPool>>) -> (r: Vec<
    Option<(u64, u64)>,
>)
    ensures
        r@ == pool_as_opt_pairs(items@),
{
    let mut out: Vec<Option<(u64, u64)>> = Vec::new();
    let mut i: usize = 0;
    while i < items.len()
        invariant
            i <= items@.len(),
            out@.len() == i,
            forall|j: int| 0 <= j < i ==> out@[j] == pool_entry_pair(items@[j]),
        decreases items@.len() - i,
    {
        let e = items[i];
        let p = match e {
            Some(NetworkableTransactionPool::Transaction(t)) => Some((t.id, t.size)),
            None => None,
        };
        out.push(p);
        i = i + 1;
    }
    proof {
        assert(out@ =~= pool_as_opt_pairs(items@));
    }
    out
}

fn opt_pairs_to_pool(items: &Vec<Option<(u64, u64)>>) -> (r: Vec<
    Option<NetworkableTransactionPool>,
>)
    ensures
        r@.len() == items@.len(),
        forall|j: int| 0 <= j < items@.len() ==> pool_entry_pair(r@[j]) == items@[j],
{
    let mut out: Vec<Option<NetworkableTransactionPool>> = Vec::new();
    let mut i: usize = 0;
    while i < items.len()
        invariant
            i <= items@.len(),
            out@.len() == i,
            forall|j: int| 0 <= j < i ==> pool_entry_pair(out@[j]) == items@[j],
        decreases items@.len() - i,
    {
        let p = items[i];
        let e = match p {
            Some(q) => Some(
                NetworkableTransactionPool::Transaction(Transaction { id: q.0, size: q.1 }),
            ),
            None => None,
        };
        out.push(e);
        i = i + 1;
    }
    out
}

fn ids_to_words(items: &Vec<TxId>) -> (r: Vec<u64>)
    ensures
        r@ == ids_as_words(items@),
{
    let mut out: Vec<u64> = Vec::new();
    let mut i: usize = 0;
    while i < items.len()
        invariant
            i <= items@.len(),
            out@.len() == i,
            forall|j: int| 0 <= j < i ==> out@[j] == items@[j].value,
        decreases items@.len() - i,
    {
        out.push(items[i].value);
        i = i + 1;
    }
    proof {
        assert(out@ =~= ids_as_words(items@));
    }
    out
}

fn words_to_ids(items: &Vec<u64>) -> (r: Vec<TxId>)
    ensures
        r@.len() == items@.len(),
        forall|j: int| 0 <= j < items@.len() ==> r@[j].value == items@[j],
{
    let mut out: Vec<TxId> = Vec::new();
    let mut i: usize = 0;
    while i < items.len()
        invariant
            i <= items@.len(),
            out@.len() == i,
            forall|j: int| 0 <= j < i ==> out@[j].value == items@[j],
        decreases items@.len() - i,
    {
        out.push(TxId { value: items[i] });
        i = i + 1;
    }
    out
}

/// Encode a list of headers as payload bytes.
pub(crate) fn encode_headers_payload(items: &Vec<SealedBlockHeader>) -> (r: Vec<u8>)
    ensures
        r@ == headers_wire(items@),
{
    let pairs = headers_to_pairs(items);
    encode_pairs(&pairs)
}

/// Decode payload bytes as a list of headers; faithful on exact encodings.
pub(crate) fn decode_headers_payload(bytes: &[u8]) -> (r: Option<Vec<SealedBlockHeader>>)
    ensures
        forall|hs: Seq<SealedBlockHeader>|
            bytes@ == headers_wire(hs) ==> r is Some && r.unwrap()@ == hs,
{
    match decode_pairs(bytes) {
        Some(pairs) => {
            let out = pairs_to_headers(&pairs);
            proof {
                assert forall|hs: Seq<SealedBlockHeader>|
                    bytes@ == headers_wire(hs) implies out@ =~= hs by {
                    assert(pairs@ == headers_as_pairs(hs));
                    assert forall|j: int| 0 <= j < hs.len() implies out@[j] == hs[j] by {
                        assert(header_pair(out@[j]) == headers_as_pairs(hs)[j]);
                        assert(headers_as_pairs(hs)[j] == header_pair(hs[j]));
                        assert(out@[j].height == hs[j].height);
                        assert(out@[j].time == hs[j].time);
                    };
                };
            }
            Some(out)
        },
        None => {
            proof {
                assert forall|hs: Seq<SealedBlockHeader>|
                    bytes@ == headers_wire(hs) implies false by {
                    assert(bytes@ == pairs_wire(headers_as_pairs(hs)));
                };
            }
            None
        },
    }
}

/// Encode a list of transactions as payload bytes.
pub(crate) fn encode_transactions_payload(items: &Vec<Transaction>) -> (r: Vec<u8>)
    ensures
        r@ == transactions_wire(items@),
{
    let pairs = txs_to_pairs(items);
    encode_pairs(&pairs)
}

/// Decode payload bytes as a list of transactions; faithful on exact
/// encodings.
pub(crate) fn decode_transactions_payload(bytes: &[u8]) -> (r: Option<Vec<Transaction>>)
    ensures
        forall|ts: Seq<Transaction>|
            bytes@ == transactions_wire(ts) ==> r is Some && r.unwrap()@ == ts,
{
    match decode_pairs(bytes) {
        Some(pairs) => {
            let out = pairs_to_txs(&pairs);
            proof {
                assert forall|ts: Seq<Transaction>|
                    bytes@ == transactions_wire(ts) implies out@ =~= ts by {
                    assert(pairs@ == txs_as_pairs(ts));
                    assert forall|j: int| 0 <= j < ts.len() implies out@[j] == ts[j] by {
                        assert(tx_pair(out@[j]) == txs_as_pairs(ts)[j]);
                        assert(txs_as_pairs(ts)[j] == tx_pair(ts[j]));
                        assert(out@[j].id == ts[j].id);
                        assert(out@[j].size == ts[j].size);
                    };
                };
            }
            Some(out)
        },
        None => {
            proof {
                assert forall|ts: Seq<Transaction>|
                    bytes@ == transactions_wire(ts) implies false by {
                    assert(bytes@ == pairs_wire(txs_as_pairs(ts)));
                };
            }
            None
        },
    }
}

/// Encode a list of pool entries as payload bytes.
pub(crate) fn encode_pool_payload(items: &Vec<Option<NetworkableTransactionPool>>) -> (r: Vec<u8>)
    ensures
        r@ == pool_wire(items@),
{
    let pairs = pool_to_opt_pairs(items);
    encode_opt_pairs(&pairs)
}

/// Decode payload bytes as a list of pool entries; faithful on exact
/// encodings.
pub(crate) fn decode_pool_payload(bytes: &[u8]) -> (r: Option<
    Vec<Option<NetworkableTransactionPool>>,
>)
    ensures
        forall|ps: Seq<Option<NetworkableTransactionPool>>|
            bytes@ == pool_wire(ps) ==> r is Some && r.unwrap()@ == ps,
{
    match decode_opt_pairs(bytes) {
        Some(pairs) => {
            let out = opt_pairs_to_pool(&pairs);
            proof {
                assert forall|ps: Seq<Option<NetworkableTransactionPool>>|
                    bytes@ == pool_wire(ps) implies out@ =~= ps by {
                    assert(pairs@ == pool_as_opt_pairs(ps));
                    assert forall|j: int| 0 <= j < ps.len() implies out@[j] == ps[j] by {
                        assert(pool_entry_pair(out@[j]) == pairs@[j]);
                        assert(pairs@[j] == pool_as_opt_pairs(ps)[j]);
                        assert(pool_as_opt_pairs(ps)[j] == pool_entry_pair(ps[j]));
                        match (out@[j], ps[j]) {
                            (
                                Some(NetworkableTransactionPool::Transaction(ta)),
                                Some(NetworkableTransactionPool::Transaction(tb)),
                            ) => {
                                assert(tx_pair(ta) == tx_pair(tb));
                                assert(ta.id == tb.id && ta.size == tb.size);
                            },
                            _ => {},
                        }
                    };
                };
            }
            Some(out)
        },
        None => {
            proof {
                assert forall|ps: Seq<Option<NetworkableTransactionPool>>|
                    bytes@ == pool_wire(ps) implies false by {
                    assert(bytes@ == opt_pairs_wire(pool_as_opt_pairs(ps)));
                };
            }
            None
        },
    }
}

/// Encode a list of transaction identifiers as payload bytes.
pub(crate) fn encode_tx_ids_payload(items: &Vec<TxId>) -> (r: Vec<u8>)
    ensures
        r@ == tx_ids_wire(items@),
{
    let words = ids_to_words(items);
    encode_words(&words)
}

/// Decode payload bytes as a list of transaction identifiers; faithful on
/// exact encodings.
pub(crate) fn decode_tx_ids_payload(bytes: &[u8]) -> (r: Option<Vec<TxId>>)
    ensures
        forall|ids: Seq<TxId>| bytes@ == tx_ids_wire(ids) ==> r is Some && r.unwrap()@ == ids,
{
    match decode_words(bytes) {
        Some(words) => {
            let out = words_to_ids(&words);
            proof {
                assert forall|ids: Seq<TxId>| bytes@ == tx_ids_wire(ids) implies out@ =~= ids by {
                    assert(words@ == ids_as_words(ids));
                    assert forall|j: int| 0 <= j < ids.len() implies out@[j] == ids[j] by {
                        assert(out@[j].value == ids_as_words(ids)[j]);
                        assert(ids_as_words(ids)[j] == ids[j].value);
                    };
                };
            }
            Some(out)
        },
        None => {
            proof {
                assert forall|ids: Seq<TxId>| bytes@ == tx_ids_wire(ids) implies false by {
                    assert(bytes@ == words_wire(ids_as_words(ids)));
                };
            }
            None
        },
    }
}

/// Encode a block-height range as payload bytes.
pub(crate) fn encode_range_payload(r: &BlockHeightRange) -> (out: Vec<u8>)
    ensures
        out@ == range_wire(*r),
{
    let mut words: Vec<u64> = Vec::new();
    words.push(r.start as u64);
    words.push(r.end as u64);
    proof {
        assert(words@ =~= range_words(*r));
    }
    encode_words(&words)
}

/// Decode payload bytes as a block-height range; faithful on exact
/// encodings.
pub(crate) fn decode_range_payload(bytes: &[u8]) -> (r: Option<BlockHeightRange>)
    ensures
        forall|rg: BlockHeightRange| bytes@ == range_wire(rg) ==> r == Some(rg),
{
    match decode_words(bytes) {
        Some(words) => {
            if words.len() == 2 && words[0] <= u32::MAX as u64 && words[1] <= u32::MAX as u64 {
                let out = BlockHeightRange { start: words[0] as u32, end: words[1] as u32 };
                proof {
                    assert forall|rg: BlockHeightRange| bytes@ == range_wire(rg) implies out
                        == rg by {
                        assert(words@ == range_words(rg));
                    };
                }
                Some(out)
            } else {
                proof {
                    assert forall|rg: BlockHeightRange| bytes@ == range_wire(rg) implies false by {
                        assert(words@ == range_words(rg));
                    };
                }
                None
            }
        },
        None => {
            proof {
                assert forall|rg: BlockHeightRange| bytes@ == range_wire(rg) implies false by {
                    assert(bytes@ == words_wire(range_words(rg)));
                };
            }
            None
        },
    }
}

} // verus!
