//! Message schemas for the request/response substream and the gossip path,
//! together with the spec-level models that contracts are stated over and
//! the semantic bridge between the V1 and V2 response schemas.

use vstd::prelude::*;

verus! {

/// The wire schema a peer speaks, negotiated out of band per stream.
#[derive(Clone, Copy, Debug, PartialEq, Eq, Structural)]
pub enum RequestResponseProtocol {
    V1,
    V2,
}

/// Reason a response failed, carried on the wire only by the V2 schema.
#[derive(Clone, Copy, Debug, PartialEq, Eq, Structural)]
pub enum ResponseMessageErrorCode {
    /// A peer speaking the V1 protocol returned an empty response; the V1
    /// schema carries no error detail, so no finer reason is recoverable.
    ProtocolV1EmptyResponse,
    /// The requested range exceeds the allowed size.
    RequestedRangeTooLarge,
}

/// Failure of an encode, decode, read or write operation.
#[derive(Clone, Copy, Debug, PartialEq, Eq, Structural)]
pub enum CodecError {
    /// The encoded message is larger than the configured maximum size.
    /// Distinct from a decode failure: callers may treat it as a protocol
    /// violation by the peer rather than a transient fault.
    SizeLimitExceeded,
    /// The bytes are not a well-formed message under the selected schema.
    MalformedMessage,
}

/// Stand-in for a sealed block header; opaque to the versioning logic.
#[derive(Clone, Copy, Debug, PartialEq, Eq, Structural)]
pub struct SealedBlockHeader {
    pub height: u64,
    pub time: u64,
}

impl Default for SealedBlockHeader {
    /// The all-zero header.
    fn default() -> (r: SealedBlockHeader)
        ensures
            r == (SealedBlockHeader { height: 0u64, time: 0u64 }),
    {
        SealedBlockHeader { height: 0, time: 0 }
    }
}

/// Stand-in for a transaction; opaque to the versioning logic.
#[derive(Clone, Copy, Debug, PartialEq, Eq, Structural)]
pub struct Transaction {
    pub id: u64,
    pub size: u64,
}

impl Transaction {
    /// A fixed transaction value, convenient for callers and tests.
    pub fn default_test_tx() -> (r: Transaction)
        ensures
            r == (Transaction { id: 0u64, size: 0u64 }),
    {
        Transaction { id: 0, size: 0 }
    }
}

/// A transaction as it travels through the transaction-pool exchange.
#[derive(Clone, Copy, Debug, PartialEq, Eq, Structural)]
pub enum NetworkableTransactionPool {
    Transaction(Transaction),
}

/// Identifier of a transaction; opaque to the versioning logic.
#[derive(Clone, Copy, Debug, PartialEq, Eq, Structural)]
pub struct TxId {
    pub value: u64,
}

/// A half-open range of block heights.
#[derive(Clone, Copy, Debug, PartialEq, Eq, Structural)]
pub struct BlockHeightRange {
    pub start: u32,
    pub end: u32,
}

/// A request; version-independent, always sent in the canonical schema.
#[derive(Debug, PartialEq, Eq)]
pub enum RequestMessage {
    SealedHeaders(BlockHeightRange),
    Transactions(BlockHeightRange),
    TxPoolFullTransactions(Vec<TxId>),
}

/// Legacy response schema: presence or absence only, no error detail.
#[derive(Debug, PartialEq, Eq)]
pub enum V1ResponseMessage {
    SealedHeaders(Option<Vec<SealedBlockHeader>>),
    Transactions(Option<Vec<Transaction>>),
    TxPoolFullTransactions(Option<Vec<Option<NetworkableTransactionPool>>>),
}

/// Canonical response schema: success with payload or a structured error.
#[derive(Debug, PartialEq, Eq)]
pub enum V2ResponseMessage {
    SealedHeaders(Result<Vec<SealedBlockHeader>, ResponseMessageErrorCode>),
    Transactions(Result<Vec<Transaction>, ResponseMessageErrorCode>),
    TxPoolFullTransactions(
        Result<Vec<Option<NetworkableTransactionPool>>, ResponseMessageErrorCode>,
    ),
}

/// A broadcast message on the gossip path; single schema, no versioning.
#[derive(Clone, Copy, Debug, PartialEq, Eq, Structural)]
pub enum GossipsubMessage {
    NewTx(Transaction),
}

/// Spec-level model of a request.
#[verifier::ext_equal]
pub enum RequestModel {
    SealedHeaders(BlockHeightRange),
    Transactions(BlockHeightRange),
    TxPoolFullTransactions(Seq<TxId>),
}

/// Spec-level model of a V1 response.
#[verifier::ext_equal]
pub enum V1ResponseModel {
    SealedHeaders(Option<Seq<SealedBlockHeader>>),
    Transactions(Option<Seq<Transaction>>),
    TxPoolFullTransactions(Option<Seq<Option<NetworkableTransactionPool>>>),
}

/// Spec-level model of a V2 response.
#[verifier::ext_equal]
pub enum V2ResponseModel {
    SealedHeaders(Result<Seq<SealedBlockHeader>, ResponseMessageErrorCode>),
    Transactions(Result<Seq<Transaction>, ResponseMessageErrorCode>),
    TxPoolFullTransactions(
        Result<Seq<Option<NetworkableTransactionPool>>, ResponseMessageErrorCode>,
    ),
}

impl View for RequestMessage {
    type V = RequestModel;

    open spec fn view(&self) -> RequestModel {
        match self {
            RequestMessage::SealedHeaders(r) => RequestModel::SealedHeaders(*r),
            RequestMessage::Transactions(r) => RequestModel::Transactions(*r),
            RequestMessage::TxPoolFullTransactions(ids) => {
                RequestModel::TxPoolFullTransactions(ids@)
            },
        }
    }
}

impl View for V1ResponseMessage {
    type V = V1ResponseModel;

    open spec fn view(&self) -> V1ResponseModel {
        match self {
            V1ResponseMessage::SealedHeaders(o) => V1ResponseModel::SealedHeaders(
                match o {
                    Some(hs) => Some(hs@),
                    None => None,
                },
            ),
            V1ResponseMessage::Transactions(o) => V1ResponseModel::Transactions(
                match o {
                    Some(ts) => Some(ts@),
                    None => None,
                },
            ),
            V1ResponseMessage::TxPoolFullTransactions(o) => V1ResponseModel::TxPoolFullTransactions(
                match o {
                    Some(ps) => Some(ps@),
                    None => None,
                },
            ),
        }
    }
}

impl View for V2ResponseMessage {
    type V = V2ResponseModel;

    open spec fn view(&self) -> V2ResponseModel {
        match self {
            V2ResponseMessage::SealedHeaders(r) => V2ResponseModel::SealedHeaders(
                match r {
                    Ok(hs) => Ok(hs@),
                    Err(c) => Err(*c),
                },
            ),
            V2ResponseMessage::Transactions(r) => V2ResponseModel::Transactions(
                match r {
                    Ok(ts) => Ok(ts@),
                    Err(c) => Err(*c),
                },
            ),
            V2ResponseMessage::TxPoolFullTransactions(r) => V2ResponseModel::TxPoolFullTransactions(
                match r {
                    Ok(ps) => Ok(ps@),
                    Err(c) => Err(*c),
                },
            ),
        }
    }
}

/// The downgrade a V2 node applies before answering a V1 peer: success keeps
/// its payload, every error code collapses to absence. Lossy by necessity of
/// the legacy format.
pub open spec fn to_v1(m: V2ResponseModel) -> V1ResponseModel {
    match m {
        V2ResponseModel::SealedHeaders(r) => V1ResponseModel::SealedHeaders(
            match r {
                Ok(p) => Some(p),
                Err(_) => None,
            },
        ),
        V2ResponseModel::Transactions(r) => V1ResponseModel::Transactions(
            match r {
                Ok(p) => Some(p),
                Err(_) => None,
            },
        ),
        V2ResponseModel::TxPoolFullTransactions(r) => V1ResponseModel::TxPoolFullTransactions(
            match r {
                Ok(p) => Some(p),
                Err(_) => None,
            },
        ),
    }
}

/// The upgrade applied to a response read from a V1 peer: a present payload
/// becomes success, absence becomes the one designated legacy error code.
pub open spec fn to_v2(m: V1ResponseModel) -> V2ResponseModel {
    match m {
        V1ResponseModel::SealedHeaders(o) => V2ResponseModel::SealedHeaders(
            match o {
                Some(p) => Ok(p),
                None => Err(ResponseMessageErrorCode::ProtocolV1EmptyResponse),
            },
        ),
        V1ResponseModel::Transactions(o) => V2ResponseModel::Transactions(
            match o {
                Some(p) => Ok(p),
                None => Err(ResponseMessageErrorCode::ProtocolV1EmptyResponse),
            },
        ),
        V1ResponseModel::TxPoolFullTransactions(o) => V2ResponseModel::TxPoolFullTransactions(
            match o {
                Some(p) => Ok(p),
                None => Err(ResponseMessageErrorCode::ProtocolV1EmptyResponse),
            },
        ),
    }
}

impl V2ResponseMessage {
    /// Downgrade this canonical response to the legacy V1 schema.
    pub fn into_v1(self) -> (r: V1ResponseMessage)
        ensures
            r@ == to_v1(self@),
    {
        match self {
            V2ResponseMessage::SealedHeaders(r) => V1ResponseMessage::SealedHeaders(r.ok()),
            V2ResponseMessage::Transactions(r) => V1ResponseMessage::Transactions(r.ok()),
            V2ResponseMessage::TxPoolFullTransactions(r) => {
                V1ResponseMessage::TxPoolFullTransactions(r.ok())
            },
        }
    }
}

impl V1ResponseMessage {
    /// Upgrade this legacy response to the canonical V2 schema.
    pub fn into_v2(self) -> (r: V2ResponseMessage)
        ensures
            r@ == to_v2(self@),
    {
        match self {
            V1ResponseMessage::SealedHeaders(o) => V2ResponseMessage::SealedHeaders(
                match o {
                    Some(p) => Ok(p),
                    None => Err(ResponseMessageErrorCode::ProtocolV1EmptyResponse),
                },
            ),
            V1ResponseMessage::Transactions(o) => V2ResponseMessage::Transactions(
                match o {
                    Some(p) => Ok(p),
                    None => Err(ResponseMessageErrorCode::ProtocolV1EmptyResponse),
                },
            ),
            V1ResponseMessage::TxPoolFullTransactions(o) => {
                V2ResponseMessage::TxPoolFullTransactions(
                    match o {
                        Some(p) => Ok(p),
                        None => Err(ResponseMessageErrorCode::ProtocolV1EmptyResponse),
                    },
                )
            },
        }
    }
}

} // verus!
