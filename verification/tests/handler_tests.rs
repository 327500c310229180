use p2p_codec::handler::GossipsubMessageHandler;
use p2p_codec::handler::RequestResponseMessageHandler;
use p2p_codec::handler::MAX_REQUEST_SIZE;
use p2p_codec::messages::BlockHeightRange;
use p2p_codec::messages::CodecError;
use p2p_codec::messages::GossipsubMessage;
use p2p_codec::messages::NetworkableTransactionPool;
use p2p_codec::messages::RequestMessage;
use p2p_codec::messages::RequestResponseProtocol;
use p2p_codec::messages::ResponseMessageErrorCode;
use p2p_codec::messages::SealedBlockHeader;
use p2p_codec::messages::Transaction;
use p2p_codec::messages::TxId;
use p2p_codec::messages::V2ResponseMessage;
use p2p_codec::PostcardCodec;

fn sample_headers_response() -> V2ResponseMessage {
    V2ResponseMessage::SealedHeaders(Ok(vec![
        SealedBlockHeader { height: 7, time: 11 },
        SealedBlockHeader { height: 8, time: 13 },
    ]))
}

#[test]
fn write_response_at_exact_size_bound_succeeds() {
    let codec = PostcardCodec;
    let encoded = codec.encode_v2_response(&sample_headers_response());
    let exact = encoded.len() as u32;

    let handler = RequestResponseMessageHandler::new(exact);
    let mut buf: Vec<u8> = Vec::new();
    let result =
        handler.write_response(&RequestResponseProtocol::V2, &mut buf, sample_headers_response());
    assert_eq!(result, Ok(()));
    assert_eq!(buf, encoded);
}

#[test]
fn write_response_one_byte_over_size_bound_fails() {
    let codec = PostcardCodec;
    let encoded = codec.encode_v2_response(&sample_headers_response());
    let exact = encoded.len() as u32;

    let handler = RequestResponseMessageHandler::new(exact - 1);
    let mut buf: Vec<u8> = Vec::new();
    let result =
        handler.write_response(&RequestResponseProtocol::V2, &mut buf, sample_headers_response());
    assert_eq!(result, Err(CodecError::SizeLimitExceeded));
    assert!(buf.is_empty());
}

#[test]
fn read_response_at_exact_size_bound_succeeds() {
    let codec = PostcardCodec;
    let encoded = codec.encode_v2_response(&sample_headers_response());
    let exact = encoded.len() as u32;

    let handler = RequestResponseMessageHandler::new(exact);
    let deserialized = handler
        .read_response(&RequestResponseProtocol::V2, encoded.as_slice())
        .expect("a message exactly at the bound should be read");
    assert_eq!(deserialized, sample_headers_response());
}

#[test]
fn read_response_one_byte_over_size_bound_fails() {
    let codec = PostcardCodec;
    let encoded = codec.encode_v2_response(&sample_headers_response());
    let exact = encoded.len() as u32;

    let handler = RequestResponseMessageHandler::new(exact - 1);
    let result = handler.read_response(&RequestResponseProtocol::V2, encoded.as_slice());
    assert_eq!(result, Err(CodecError::SizeLimitExceeded));
}

#[test]
fn request_roundtrip_returns_original_range_request() {
    let handler = RequestResponseMessageHandler::new(1024);
    let request = RequestMessage::SealedHeaders(BlockHeightRange { start: 3, end: 42 });
    let mut buf: Vec<u8> = Vec::new();
    handler
        .write_request(&mut buf, RequestMessage::SealedHeaders(BlockHeightRange {
            start: 3,
            end: 42,
        }))
        .expect("a range request fits the request size bound");
    let deserialized = handler.read_request(buf.as_slice()).expect("the bytes just written decode");
    assert_eq!(deserialized, request);
}

#[test]
fn request_roundtrip_returns_original_tx_ids_request() {
    let handler = RequestResponseMessageHandler::new(1024);
    let ids = vec![TxId { value: 1 }, TxId { value: u64::MAX }];
    let request = RequestMessage::TxPoolFullTransactions(ids.clone());
    let mut buf: Vec<u8> = Vec::new();
    handler
        .write_request(&mut buf, RequestMessage::TxPoolFullTransactions(ids))
        .expect("a short identifier list fits the request size bound");
    let deserialized = handler.read_request(buf.as_slice()).expect("the bytes just written decode");
    assert_eq!(deserialized, request);
}

#[test]
fn request_roundtrip_keeps_extreme_range_bounds() {
    let handler = RequestResponseMessageHandler::new(1024);
    let request = RequestMessage::Transactions(BlockHeightRange { start: 0, end: u32::MAX });
    let mut buf: Vec<u8> = Vec::new();
    handler
        .write_request(&mut buf, RequestMessage::Transactions(BlockHeightRange {
            start: 0,
            end: u32::MAX,
        }))
        .expect("a range request fits the request size bound");
    let deserialized = handler.read_request(buf.as_slice()).expect("the bytes just written decode");
    assert_eq!(deserialized, request);
}

#[test]
fn oversized_request_is_rejected_on_write() {
    let handler = RequestResponseMessageHandler::new(1024);
    let mut ids: Vec<TxId> = Vec::new();
    for i in 0..2000u64 {
        ids.push(TxId { value: i % 10 });
    }
    let mut buf: Vec<u8> = Vec::new();
    let result = handler.write_request(&mut buf, RequestMessage::TxPoolFullTransactions(ids));
    assert_eq!(result, Err(CodecError::SizeLimitExceeded));
    assert!(buf.is_empty());
}

#[test]
fn oversized_request_is_rejected_on_read() {
    let handler = RequestResponseMessageHandler::new(1024);
    let buf = vec![0u8; MAX_REQUEST_SIZE as usize + 1];
    let result = handler.read_request(buf.as_slice());
    assert_eq!(result, Err(CodecError::SizeLimitExceeded));
}

#[test]
fn malformed_response_bytes_are_rejected() {
    let handler = RequestResponseMessageHandler::new(1024);
    assert_eq!(
        handler.read_response(&RequestResponseProtocol::V2, &[]),
        Err(CodecError::MalformedMessage)
    );
    assert_eq!(
        handler.read_response(&RequestResponseProtocol::V2, &[9, 9, 9]),
        Err(CodecError::MalformedMessage)
    );
    assert_eq!(
        handler.read_response(&RequestResponseProtocol::V1, &[0, 1]),
        Err(CodecError::MalformedMessage)
    );
}

#[test]
fn malformed_request_bytes_are_rejected() {
    let handler = RequestResponseMessageHandler::new(1024);
    assert_eq!(handler.read_request(&[]), Err(CodecError::MalformedMessage));
    assert_eq!(handler.read_request(&[7]), Err(CodecError::MalformedMessage));
}

#[test]
fn transactions_response_survives_v1_roundtrip() {
    let handler = RequestResponseMessageHandler::new(1024);
    let txs = vec![Transaction { id: 21, size: 100 }];
    let mut buf: Vec<u8> = Vec::new();
    handler
        .write_response(
            &RequestResponseProtocol::V1,
            &mut buf,
            V2ResponseMessage::Transactions(Ok(txs.clone())),
        )
        .expect("a short transaction list fits the response size bound");
    let deserialized = handler
        .read_response(&RequestResponseProtocol::V1, buf.as_slice())
        .expect("the bytes just written decode");
    assert_eq!(deserialized, V2ResponseMessage::Transactions(Ok(txs)));
}

#[test]
fn transactions_error_collapses_under_v1_roundtrip() {
    let handler = RequestResponseMessageHandler::new(1024);
    let mut buf: Vec<u8> = Vec::new();
    handler
        .write_response(
            &RequestResponseProtocol::V1,
            &mut buf,
            V2ResponseMessage::Transactions(Err(ResponseMessageErrorCode::RequestedRangeTooLarge)),
        )
        .expect("an error response fits the response size bound");
    let deserialized = handler
        .read_response(&RequestResponseProtocol::V1, buf.as_slice())
        .expect("the bytes just written decode");
    assert_eq!(
        deserialized,
        V2ResponseMessage::Transactions(Err(ResponseMessageErrorCode::ProtocolV1EmptyResponse))
    );
}

#[test]
fn v2_roundtrip_keeps_range_too_large_error_code() {
    let handler = RequestResponseMessageHandler::new(1024);
    let mut buf: Vec<u8> = Vec::new();
    handler
        .write_response(
            &RequestResponseProtocol::V2,
            &mut buf,
            V2ResponseMessage::TxPoolFullTransactions(Err(
                ResponseMessageErrorCode::RequestedRangeTooLarge,
            )),
        )
        .expect("an error response fits the response size bound");
    let deserialized = handler
        .read_response(&RequestResponseProtocol::V2, buf.as_slice())
        .expect("the bytes just written decode");
    assert_eq!(
        deserialized,
        V2ResponseMessage::TxPoolFullTransactions(Err(
            ResponseMessageErrorCode::RequestedRangeTooLarge,
        ))
    );
}

#[test]
fn pool_response_with_gaps_survives_v2_roundtrip() {
    let handler = RequestResponseMessageHandler::new(1024);
    let entries = vec![
        Some(NetworkableTransactionPool::Transaction(Transaction { id: 4, size: 9 })),
        None,
        Some(NetworkableTransactionPool::Transaction(Transaction { id: 5, size: 1 })),
    ];
    let mut buf: Vec<u8> = Vec::new();
    handler
        .write_response(
            &RequestResponseProtocol::V2,
            &mut buf,
            V2ResponseMessage::TxPoolFullTransactions(Ok(entries.clone())),
        )
        .expect("a short pool listing fits the response size bound");
    let deserialized = handler
        .read_response(&RequestResponseProtocol::V2, buf.as_slice())
        .expect("the bytes just written decode");
    assert_eq!(deserialized, V2ResponseMessage::TxPoolFullTransactions(Ok(entries)));
}

#[test]
fn empty_header_list_survives_both_versions() {
    let handler = RequestResponseMessageHandler::new(1024);
    for protocol in [RequestResponseProtocol::V1, RequestResponseProtocol::V2] {
        let mut buf: Vec<u8> = Vec::new();
        handler
            .write_response(&protocol, &mut buf, V2ResponseMessage::SealedHeaders(Ok(vec![])))
            .expect("an empty list fits the response size bound");
        let deserialized = handler
            .read_response(&protocol, buf.as_slice())
            .expect("the bytes just written decode");
        assert_eq!(deserialized, V2ResponseMessage::SealedHeaders(Ok(vec![])));
    }
}

#[test]
fn gossip_roundtrip_returns_original_message() {
    let handler = GossipsubMessageHandler::new();
    let message = GossipsubMessage::NewTx(Transaction { id: 77, size: 3 });
    let encoded = handler.encode(&message);
    let decoded = handler.decode(encoded.as_slice()).expect("the bytes just written decode");
    assert_eq!(decoded, message);
}

#[test]
fn gossip_rejects_malformed_bytes() {
    let handler = GossipsubMessageHandler::new();
    assert_eq!(handler.decode(&[255, 255]), Err(CodecError::MalformedMessage));
}
