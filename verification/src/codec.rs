//! The wire schemas: how requests, V1 responses, V2 responses and gossip
//! messages are laid out as bytes, and the verified encode/decode paths of
//! the postcard-backed codec.
//!
//! Every schema is a variant tag followed by the variant's content. A V2
//! response carries a result tag (success 0, failure 1) and then either the
//! payload bytes or the error code; a V1 response carries an option tag
//! (absent 0, present 1) and then the payload bytes if present — the legacy
//! schema has no way to carry an error code. Decoding is faithful: bytes
//! that are exactly the wire form of a message decode to that message.

use vstd::prelude::*;
use vstd::slice::slice_subrange;

use crate::PostcardCodec;
use crate::messages::CodecError;
use crate::messages::GossipsubMessage;
use crate::messages::RequestMessage;
use crate::messages::RequestModel;
use crate::messages::ResponseMessageErrorCode;
use crate::messages::Transaction;
use crate::messages::V1ResponseMessage;
use crate::messages::V1ResponseModel;
use crate::messages::V2ResponseMessage;
use crate::messages::V2ResponseModel;
use crate::payload::decode_headers_payload;
use crate::payload::decode_pool_payload;
use crate::payload::decode_range_payload;
use crate::payload::decode_transactions_payload;
use crate::payload::decode_tx_ids_payload;
use crate::payload::encode_headers_payload;
use crate::payload::encode_pool_payload;
use crate::payload::encode_range_payload;
use crate::payload::encode_transactions_payload;
use crate::payload::encode_tx_ids_payload;
use crate::payload::headers_wire;
use crate::payload::pool_wire;
use crate::payload::range_wire;
use crate::payload::transactions_wire;
use crate::payload::tx_ids_wire;

verus! {

/// The wire byte of an error code.
pub open spec fn code_byte(c: ResponseMessageErrorCode) -> u8 {
    match c {
        ResponseMessageErrorCode::ProtocolV1EmptyResponse => 0u8,
        ResponseMessageErrorCode::RequestedRangeTooLarge => 1u8,
    }
}

/// The V2 wire form of a response.
pub open spec fn v2_wire(m: V2ResponseModel) -> Seq<u8> {
    match m {
        V2ResponseModel::SealedHeaders(Ok(p)) => seq![0u8, 0u8] + headers_wire(p),
        V2ResponseModel::SealedHeaders(Err(c)) => seq![0u8, 1u8, code_byte(c)],
        V2ResponseModel::Transactions(Ok(p)) => seq![1u8, 0u8] + transactions_wire(p),
        V2ResponseModel::Transactions(Err(c)) => seq![1u8, 1u8, code_byte(c)],
        V2ResponseModel::TxPoolFullTransactions(Ok(p)) => seq![2u8, 0u8] + pool_wire(p),
        V2ResponseModel::TxPoolFullTransactions(Err(c)) => seq![2u8, 1u8, code_byte(c)],
    }
}

/// The V1 wire form of a response: absence is the only encodable failure.
pub open spec fn v1_wire(m: V1ResponseModel) -> Seq<u8> {
    match m {
        V1ResponseModel::SealedHeaders(Some(p)) => seq![0u8, 1u8] + headers_wire(p),
        V1ResponseModel::SealedHeaders(None) => seq![0u8, 0u8],
        V1ResponseModel::Transactions(Some(p)) => seq![1u8, 1u8] + transactions_wire(p),
        V1ResponseModel::Transactions(None) => seq![1u8, 0u8],
        V1ResponseModel::TxPoolFullTransactions(Some(p)) => seq![2u8, 1u8] + pool_wire(p),
        V1ResponseModel::TxPoolFullTransactions(None) => seq![2u8, 0u8],
    }
}

/// The wire form of a request; the same for every protocol version.
pub open spec fn request_wire(m: RequestModel) -> Seq<u8> {
    match m {
        RequestModel::SealedHeaders(r) => seq![0u8] + range_wire(r),
        RequestModel::Transactions(r) => seq![1u8] + range_wire(r),
        RequestModel::TxPoolFullTransactions(ids) => seq![2u8] + tx_ids_wire(ids),
    }
}

/// The wire form of a gossip message: the broadcast transaction itself.
pub open spec fn gossip_wire(m: GossipsubMessage) -> Seq<u8> {
    match m {
        GossipsubMessage::NewTx(t) => transactions_wire(seq![t]),
    }
}

/// The wire byte of an error code.
fn error_code_byte(c: &ResponseMessageErrorCode) -> (r: u8)
    ensures
        r == code_byte(*c),
{
    match c {
        ResponseMessageErrorCode::ProtocolV1EmptyResponse => 0,
        ResponseMessageErrorCode::RequestedRangeTooLarge => 1,
    }
}

impl PostcardCodec {
    /// Encode a canonical response in the V2 wire schema.
    pub fn encode_v2_response(&self, response: &V2ResponseMessage) -> (r: Vec<u8>)
        ensures
            r@ == v2_wire(response@),
    {
        let mut out: Vec<u8> = Vec::new();
        match response {
            V2ResponseMessage::SealedHeaders(Ok(p)) => {
                out.push(0u8);
                out.push(0u8);
                let mut payload = encode_headers_payload(p);
                out.append(&mut payload);
                proof {
                    assert(out@ =~= v2_wire(response@));
                }
            },
            V2ResponseMessage::SealedHeaders(Err(c)) => {
                out.push(0u8);
                out.push(1u8);
                out.push(error_code_byte(c));
                proof {
                    assert(out@ =~= v2_wire(response@));
                }
            },
            V2ResponseMessage::Transactions(Ok(p)) => {
                out.push(1u8);
                out.push(0u8);
                let mut payload = encode_transactions_payload(p);
                out.append(&mut payload);
                proof {
                    assert(out@ =~= v2_wire(response@));
                }
            },
            V2ResponseMessage::Transactions(Err(c)) => {
                out.push(1u8);
                out.push(1u8);
                out.push(error_code_byte(c));
                proof {
                    assert(out@ =~= v2_wire(response@));
                }
            },
            V2ResponseMessage::TxPoolFullTransactions(Ok(p)) => {
                out.push(2u8);
                out.push(0u8);
                let mut payload = encode_pool_payload(p);
                out.append(&mut payload);
                proof {
                    assert(out@ =~= v2_wire(response@));
                }
            },
            V2ResponseMessage::TxPoolFullTransactions(Err(c)) => {
                out.push(2u8);
                out.push(1u8);
                out.push(error_code_byte(c));
                proof {
                    assert(out@ =~= v2_wire(response@));
                }
            },
        }
        out
    }

    /// Encode a legacy response in the V1 wire schema.
    pub fn encode_v1_response(&self, response: &V1ResponseMessage) -> (r: Vec<u8>)
        ensures
            r@ == v1_wire(response@),
    {
        let mut out: Vec<u8> = Vec::new();
        match response {
            V1ResponseMessage::SealedHeaders(Some(p)) => {
                out.push(0u8);
                out.push(1u8);
                let mut payload = encode_headers_payload(p);
                out.append(&mut payload);
                proof {
                    assert(out@ =~= v1_wire(response@));
                }
            },
            V1ResponseMessage::SealedHeaders(None) => {
                out.push(0u8);
                out.push(0u8);
                proof {
                    assert(out@ =~= v1_wire(response@));
                }
            },
            V1ResponseMessage::Transactions(Some(p)) => {
                out.push(1u8);
                out.push(1u8);
                let mut payload = encode_transactions_payload(p);
                out.append(&mut payload);
                proof {
                    assert(out@ =~= v1_wire(response@));
                }
            },
            V1ResponseMessage::Transactions(None) => {
                out.push(1u8);
                out.push(0u8);
                proof {
                    assert(out@ =~= v1_wire(response@));
                }
            },
            V1ResponseMessage::TxPoolFullTransactions(Some(p)) => {
                out.push(2u8);
                out.push(1u8);
                let mut payload = encode_pool_payload(p);
                out.append(&mut payload);
                proof {
                    assert(out@ =~= v1_wire(response@));
                }
            },
            V1ResponseMessage::TxPoolFullTransactions(None) => {
                out.push(2u8);
                out.push(0u8);
                proof {
                    assert(out@ =~= v1_wire(response@));
                }
            },
        }
        out
    }

    /// Encode a request in the canonical wire schema.
    pub fn encode_request(&self, request: &RequestMessage) -> (r: Vec<u8>)
        ensures
            r@ == request_wire(request@),
    {
        let mut out: Vec<u8> = Vec::new();
        match request {
            RequestMessage::SealedHeaders(range) => {
                out.push(0u8);
                let mut payload = encode_range_payload(range);
                out.append(&mut payload);
                proof {
                    assert(out@ =~= request_wire(request@));
                }
            },
            RequestMessage::Transactions(range) => {
                out.push(1u8);
                let mut payload = encode_range_payload(range);
                out.append(&mut payload);
                proof {
                    assert(out@ =~= request_wire(request@));
                }
            },
            RequestMessage::TxPoolFullTransactions(ids) => {
                out.push(2u8);
                let mut payload = encode_tx_ids_payload(ids);
                out.append(&mut payload);
                proof {
                    assert(out@ =~= request_wire(request@));
                }
            },
        }
        out
    }

    /// Encode a gossip message; the gossip path has a single schema.
    pub fn encode_gossip_message(&self, message: &GossipsubMessage) -> (r: Vec<u8>)
        ensures
            r@ == gossip_wire(*message),
    {
        match message {
            GossipsubMessage::NewTx(t) => {
                let mut txs: Vec<Transaction> = Vec::new();
                txs.push(*t);
                proof {
                    assert(txs@ =~= seq![*t]);
                }
                encode_transactions_payload(&txs)
            },
        }
    }

    /// Decode bytes in the V2 wire schema; faithful on exact encodings.
    pub fn decode_v2_response(&self, bytes: &[u8]) -> (r: Result<V2ResponseMessage, CodecError>)
        ensures
            forall|m: V2ResponseModel| bytes@ == v2_wire(m) ==> r is Ok && r.unwrap()@ == m,
            r is Err ==> r == Err::<V2ResponseMessage, CodecError>(CodecError::MalformedMessage),
    {
        if bytes.len() < 2 {
            return Err(CodecError::MalformedMessage);
        }
        let tag = bytes[0];
        let sub = bytes[1];
        if sub == 0u8 {
            let rest = slice_subrange(bytes, 2, bytes.len());
            if tag == 0u8 {
                match decode_headers_payload(rest) {
                    Some(v) => {
                        let out = V2ResponseMessage::SealedHeaders(Ok(v));
                        proof {
                            assert forall|m: V2ResponseModel| bytes@ == v2_wire(m) implies out@
                                == m by {
                                match m {
                                    V2ResponseModel::SealedHeaders(Ok(p)) => {
                                        assert(rest@ =~= headers_wire(p));
                                        assert(v@ == p);
                                    },
                                    _ => {},
                                }
                            };
                        }
                        Ok(out)
                    },
                    None => {
                        proof {
                            assert forall|m: V2ResponseModel| bytes@ == v2_wire(m) implies false by {
                                match m {
                                    V2ResponseModel::SealedHeaders(Ok(p)) => {
                                        assert(rest@ =~= headers_wire(p));
                                    },
                                    _ => {},
                                }
                            };
                        }
                        Err(CodecError::MalformedMessage)
                    },
                }
            } else if tag == 1u8 {
                match decode_transactions_payload(rest) {
                    Some(v) => {
                        let out = V2ResponseMessage::Transactions(Ok(v));
                        proof {
                            assert forall|m: V2ResponseModel| bytes@ == v2_wire(m) implies out@
                                == m by {
                                match m {
                                    V2ResponseModel::Transactions(Ok(p)) => {
                                        assert(rest@ =~= transactions_wire(p));
                                        assert(v@ == p);
                                    },
                                    _ => {},
                                }
                            };
                        }
                        Ok(out)
                    },
                    None => {
                        proof {
                            assert forall|m: V2ResponseModel| bytes@ == v2_wire(m) implies false by {
                                match m {
                                    V2ResponseModel::Transactions(Ok(p)) => {
                                        assert(rest@ =~= transactions_wire(p));
                                    },
                                    _ => {},
                                }
                            };
                        }
                        Err(CodecError::MalformedMessage)
                    },
                }
            } else if tag == 2u8 {
                match decode_pool_payload(rest) {
                    Some(v) => {
                        let out = V2ResponseMessage::TxPoolFullTransactions(Ok(v));
                        proof {
                            assert forall|m: V2ResponseModel| bytes@ == v2_wire(m) implies out@
                                == m by {
                                match m {
                                    V2ResponseModel::TxPoolFullTransactions(Ok(p)) => {
                                        assert(rest@ =~= pool_wire(p));
                                        assert(v@ == p);
                                    },
                                    _ => {},
                                }
                            };
                        }
                        Ok(out)
                    },
                    None => {
                        proof {
                            assert forall|m: V2ResponseModel| bytes@ == v2_wire(m) implies false by {
                                match m {
                                    V2ResponseModel::TxPoolFullTransactions(Ok(p)) => {
                                        assert(rest@ =~= pool_wire(p));
                                    },
                                    _ => {},
                                }
                            };
                        }
                        Err(CodecError::MalformedMessage)
                    },
                }
            } else {
                Err(CodecError::MalformedMessage)
            }
        } else if sub == 1u8 {
            if bytes.len() < 3 {
                return Err(CodecError::MalformedMessage);
            }
            let cb = bytes[2];
            let code = if cb == 0u8 {
                ResponseMessageErrorCode::ProtocolV1EmptyResponse
            } else if cb == 1u8 {
                ResponseMessageErrorCode::RequestedRangeTooLarge
            } else {
                return Err(CodecError::MalformedMessage);
            };
            if tag == 0u8 {
                Ok(V2ResponseMessage::SealedHeaders(Err(code)))
            } else if tag == 1u8 {
                Ok(V2ResponseMessage::Transactions(Err(code)))
            } else if tag == 2u8 {
                Ok(V2ResponseMessage::TxPoolFullTransactions(Err(code)))
            } else {
                Err(CodecError::MalformedMessage)
            }
        } else {
            Err(CodecError::MalformedMessage)
        }
    }

    /// Decode bytes in the V1 wire schema; faithful on exact encodings.
    pub fn decode_v1_response(&self, bytes: &[u8]) -> (r: Result<V1ResponseMessage, CodecError>)
        ensures
            forall|m: V1ResponseModel| bytes@ == v1_wire(m) ==> r is Ok && r.unwrap()@ == m,
            r is Err ==> r == Err::<V1ResponseMessage, CodecError>(CodecError::MalformedMessage),
    {
        if bytes.len() < 2 {
            return Err(CodecError::MalformedMessage);
        }
        let tag = bytes[0];
        let sub = bytes[1];
        if sub == 1u8 {
            let rest = slice_subrange(bytes, 2, bytes.len());
            if tag == 0u8 {
                match decode_headers_payload(rest) {
                    Some(v) => {
                        let out = V1ResponseMessage::SealedHeaders(Some(v));
                        proof {
                            assert forall|m: V1ResponseModel| bytes@ == v1_wire(m) implies out@
                                == m by {
                                match m {
                                    V1ResponseModel::SealedHeaders(Some(p)) => {
                                        assert(rest@ =~= headers_wire(p));
                                        assert(v@ == p);
                                    },
                                    _ => {},
                                }
                            };
                        }
                        Ok(out)
                    },
                    None => {
                        proof {
                            assert forall|m: V1ResponseModel| bytes@ == v1_wire(m) implies false by {
                                match m {
                                    V1ResponseModel::SealedHeaders(Some(p)) => {
                                        assert(rest@ =~= headers_wire(p));
                                    },
                                    _ => {},
                                }
                            };
                        }
                        Err(CodecError::MalformedMessage)
                    },
                }
            } else if tag == 1u8 {
                match decode_transactions_payload(rest) {
                    Some(v) => {
                        let out = V1ResponseMessage::Transactions(Some(v));
                        proof {
                            assert forall|m: V1ResponseModel| bytes@ == v1_wire(m) implies out@
                                == m by {
                                match m {
                                    V1ResponseModel::Transactions(Some(p)) => {
                                        assert(rest@ =~= transactions_wire(p));
                                        assert(v@ == p);
                                    },
                                    _ => {},
                                }
                            };
                        }
                        Ok(out)
                    },
                    None => {
                        proof {
                            assert forall|m: V1ResponseModel| bytes@ == v1_wire(m) implies false by {
                                match m {
                                    V1ResponseModel::Transactions(Some(p)) => {
                                        assert(rest@ =~= transactions_wire(p));
                                    },
                                    _ => {},
                                }
                            };
                        }
                        Err(CodecError::MalformedMessage)
                    },
                }
            } else if tag == 2u8 {
                match decode_pool_payload(rest) {
                    Some(v) => {
                        let out = V1ResponseMessage::TxPoolFullTransactions(Some(v));
                        proof {
                            assert forall|m: V1ResponseModel| bytes@ == v1_wire(m) implies out@
                                == m by {
                                match m {
                                    V1ResponseModel::TxPoolFullTransactions(Some(p)) => {
                                        assert(rest@ =~= pool_wire(p));
                                        assert(v@ == p);
                                    },
                                    _ => {},
                                }
                            };
                        }
                        Ok(out)
                    },
                    None => {
                        proof {
                            assert forall|m: V1ResponseModel| bytes@ == v1_wire(m) implies false by {
                                match m {
                                    V1ResponseModel::TxPoolFullTransactions(Some(p)) => {
                                        assert(rest@ =~= pool_wire(p));
                                    },
                                    _ => {},
                                }
                            };
                        }
                        Err(CodecError::MalformedMessage)
                    },
                }
            } else {
                Err(CodecError::MalformedMessage)
            }
        } else if sub == 0u8 {
            if tag == 0u8 {
                Ok(V1ResponseMessage::SealedHeaders(None))
            } else if tag == 1u8 {
                Ok(V1ResponseMessage::Transactions(None))
            } else if tag == 2u8 {
                Ok(V1ResponseMessage::TxPoolFullTransactions(None))
            } else {
                Err(CodecError::MalformedMessage)
            }
        } else {
            Err(CodecError::MalformedMessage)
        }
    }

    /// Decode bytes in the canonical request schema; faithful on exact
    /// encodings.
    pub fn decode_request(&self, bytes: &[u8]) -> (r: Result<RequestMessage, CodecError>)
        ensures
            forall|m: RequestModel| bytes@ == request_wire(m) ==> r is Ok && r.unwrap()@ == m,
            r is Err ==> r == Err::<RequestMessage, CodecError>(CodecError::MalformedMessage),
    {
        if bytes.len() < 1 {
            return Err(CodecError::MalformedMessage);
        }
        let tag = bytes[0];
        let rest = slice_subrange(bytes, 1, bytes.len());
        if tag == 0u8 || tag == 1u8 {
            match decode_range_payload(rest) {
                Some(range) => {
                    let out = if tag == 0u8 {
                        RequestMessage::SealedHeaders(range)
                    } else {
                        RequestMessage::Transactions(range)
                    };
                    proof {
                        assert forall|m: RequestModel| bytes@ == request_wire(m) implies out@
                            == m by {
                            match m {
                                RequestModel::SealedHeaders(rg) => {
                                    assert(rest@ =~= range_wire(rg));
                                },
                                RequestModel::Transactions(rg) => {
                                    assert(rest@ =~= range_wire(rg));
                                },
                                _ => {},
                            }
                        };
                    }
                    Ok(out)
                },
                None => {
                    proof {
                        assert forall|m: RequestModel| bytes@ == request_wire(m) implies false by {
                            match m {
                                RequestModel::SealedHeaders(rg) => {
                                    assert(rest@ =~= range_wire(rg));
                                },
                                RequestModel::Transactions(rg) => {
                                    assert(rest@ =~= range_wire(rg));
                                },
                                _ => {},
                            }
                        };
                    }
                    Err(CodecError::MalformedMessage)
                },
            }
        } else if tag == 2u8 {
            match decode_tx_ids_payload(rest) {
                Some(ids) => {
                    let out = RequestMessage::TxPoolFullTransactions(ids);
                    proof {
                        assert forall|m: RequestModel| bytes@ == request_wire(m) implies out@
                            == m by {
                            match m {
                                RequestModel::TxPoolFullTransactions(p) => {
                                    assert(rest@ =~= tx_ids_wire(p));
                                    assert(ids@ == p);
                                },
                                _ => {},
                            }
                        };
                    }
                    Ok(out)
                },
                None => {
                    proof {
                        assert forall|m: RequestModel| bytes@ == request_wire(m) implies false by {
                            match m {
                                RequestModel::TxPoolFullTransactions(p) => {
                                    assert(rest@ =~= tx_ids_wire(p));
                                },
                                _ => {},
                            }
                        };
                    }
                    Err(CodecError::MalformedMessage)
                },
            }
        } else {
            Err(CodecError::MalformedMessage)
        }
    }

    /// Decode bytes on the gossip path; faithful on exact encodings.
    pub fn decode_gossip_message(&self, bytes: &[u8]) -> (r: Result<GossipsubMessage, CodecError>)
        ensures
            forall|m: GossipsubMessage| bytes@ == gossip_wire(m) ==> r == Ok::<
                GossipsubMessage,
                CodecError,
            >(m),
            r is Err ==> r == Err::<GossipsubMessage, CodecError>(CodecError::MalformedMessage),
    {
        match decode_transactions_payload(bytes) {
            Some(txs) => {
                if txs.len() == 1 {
                    let out = GossipsubMessage::NewTx(txs[0]);
                    proof {
                        assert forall|m: GossipsubMessage| bytes@ == gossip_wire(m) implies out
                            == m by {
                            match m {
                                GossipsubMessage::NewTx(t) => {
                                    assert(txs@ == seq![t]);
                                    assert(txs@[0] == t);
                                },
                            }
                        };
                    }
                    Ok(out)
                } else {
                    proof {
                        assert forall|m: GossipsubMessage| bytes@ == gossip_wire(m) implies false by {
                            match m {
                                GossipsubMessage::NewTx(t) => {
                                    assert(txs@ == seq![t]);
                                },
                            }
                        };
                    }
                    Err(CodecError::MalformedMessage)
                }
            },
            None => {
                Err(CodecError::MalformedMessage)
            },
        }
    }
}

} // verus!
