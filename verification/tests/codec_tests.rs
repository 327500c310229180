use p2p_codec::handler::RequestResponseMessageHandler;
use p2p_codec::messages::BlockHeightRange;
use p2p_codec::messages::NetworkableTransactionPool;
use p2p_codec::messages::RequestMessage;
use p2p_codec::messages::RequestResponseProtocol;
use p2p_codec::messages::ResponseMessageErrorCode;
use p2p_codec::messages::SealedBlockHeader;
use p2p_codec::messages::Transaction;
use p2p_codec::messages::V1ResponseMessage;
use p2p_codec::messages::V2ResponseMessage;
use p2p_codec::PostcardCodec;

const MAX_REQUEST_SIZE: u32 = 1024;

#[test]
fn test_request_size_fits() {
    let arbitrary_range = BlockHeightRange { start: 2, end: 6 };
    let m = RequestMessage::Transactions(arbitrary_range);
    let codec = PostcardCodec;
    assert!(codec.encode_request(&m).len() <= MAX_REQUEST_SIZE as usize);
}

#[test]
fn codec__serialization_roundtrip_using_v2_on_successful_response_returns_original_value__sealed_headers()
{
    // Given
    let sealed_block_headers = vec![SealedBlockHeader::default()];
    let response = V2ResponseMessage::SealedHeaders(Ok(sealed_block_headers.clone()));
    let codec = RequestResponseMessageHandler::new(MAX_REQUEST_SIZE);
    let mut buf: Vec<u8> = Vec::with_capacity(1024);

    // When
    codec
        .write_response(&RequestResponseProtocol::V2, &mut buf, response)
        .expect("Valid Vec<SealedBlockHeader> should be serialized using v1");

    let deserialized = codec
        .read_response(&RequestResponseProtocol::V2, buf.as_slice())
        .expect("Valid Vec<SealedBlockHeader> should be deserialized using v1");

    // Then
    assert!(matches!(
        deserialized,
        V2ResponseMessage::SealedHeaders(Ok(sealed_headers)) if sealed_headers == sealed_block_headers
    ));
}

#[test]
fn codec__serialization_roundtrip_using_v2_on_successful_response_returns_original_value__full_transactions()
{
    // Given
    let full_transactions = vec![Some(NetworkableTransactionPool::Transaction(
        Transaction::default_test_tx(),
    ))];
    let response = V2ResponseMessage::TxPoolFullTransactions(Ok(full_transactions.clone()));
    let codec = RequestResponseMessageHandler::new(MAX_REQUEST_SIZE);
    let mut buf: Vec<u8> = Vec::with_capacity(1024);

    // When
    codec
        .write_response(&RequestResponseProtocol::V2, &mut buf, response)
        .expect("Valid full transactions should be serialized using v2");

    let deserialized = codec
        .read_response(&RequestResponseProtocol::V2, buf.as_slice())
        .expect("Valid full transactions should be deserialized using v2");

    // Then
    assert!(matches!(
        deserialized,
        V2ResponseMessage::TxPoolFullTransactions(Ok(actual)) if actual == full_transactions
    ));
}

#[test]
fn codec__serialization_roundtrip_using_v1_on_successful_response_returns_original_value() {
    // Given
    let sealed_block_headers = vec![SealedBlockHeader::default()];
    let response = V2ResponseMessage::SealedHeaders(Ok(sealed_block_headers.clone()));
    let codec = RequestResponseMessageHandler::new(MAX_REQUEST_SIZE);
    let mut buf: Vec<u8> = Vec::with_capacity(1024);

    // When
    codec
        .write_response(&RequestResponseProtocol::V1, &mut buf, response)
        .expect("Valid Vec<SealedBlockHeader> should be serialized using v1");

    let deserialized = codec
        .read_response(&RequestResponseProtocol::V1, buf.as_slice())
        .expect("Valid Vec<SealedBlockHeader> should be deserialized using v1");

    // Then
    assert!(matches!(
        deserialized,
        V2ResponseMessage::SealedHeaders(Ok(sealed_headers)) if sealed_headers == sealed_block_headers
    ));
}

#[test]
fn codec__serialization_roundtrip_using_v2_on_error_response_returns_original_value() {
    // Given
    let response =
        V2ResponseMessage::SealedHeaders(Err(ResponseMessageErrorCode::ProtocolV1EmptyResponse));
    let codec = RequestResponseMessageHandler::new(MAX_REQUEST_SIZE);
    let mut buf: Vec<u8> = Vec::with_capacity(1024);

    // When
    codec
        .write_response(&RequestResponseProtocol::V2, &mut buf, response)
        .expect("Valid Vec<SealedBlockHeader> is serialized using v1");

    let deserialized = codec
        .read_response(&RequestResponseProtocol::V2, buf.as_slice())
        .expect("Valid Vec<SealedBlockHeader> is deserialized using v1");

    // Then
    assert!(matches!(
        deserialized,
        V2ResponseMessage::SealedHeaders(Err(ResponseMessageErrorCode::ProtocolV1EmptyResponse))
    ));
}

#[test]
fn codec__serialization_roundtrip_using_v1_on_error_response_returns_predefined_error_code() {
    // Given
    let response =
        V2ResponseMessage::SealedHeaders(Err(ResponseMessageErrorCode::RequestedRangeTooLarge));
    let codec = RequestResponseMessageHandler::new(MAX_REQUEST_SIZE);
    let mut buf: Vec<u8> = Vec::with_capacity(1024);

    // When
    codec
        .write_response(&RequestResponseProtocol::V1, &mut buf, response)
        .expect("Valid Vec<SealedBlockHeader> is serialized using v1");

    let deserialized = codec
        .read_response(&RequestResponseProtocol::V1, buf.as_slice())
        .expect("Valid Vec<SealedBlockHeader> is deserialized using v1");

    // Then
    assert!(matches!(
        deserialized,
        V2ResponseMessage::SealedHeaders(Err(ResponseMessageErrorCode::ProtocolV1EmptyResponse))
    ));
}

#[test]
fn codec__write_response_is_backwards_compatible_with_v1() {
    // Given
    let response =
        V2ResponseMessage::SealedHeaders(Err(ResponseMessageErrorCode::ProtocolV1EmptyResponse));
    let codec = RequestResponseMessageHandler::new(MAX_REQUEST_SIZE);
    let mut buf: Vec<u8> = Vec::with_capacity(1024);

    // When
    codec
        .write_response(&RequestResponseProtocol::V1, &mut buf, response)
        .expect("Valid Vec<SealedBlockHeader> is serialized using v1");

    // We cannot access the codec trait from an old node here,
    // so we deserialize directly using the `V1ResponseMessage` type.
    let deserialized_as_v1 = codec
        .codec
        .decode_v1_response(buf.as_slice())
        .expect("Deserialization as V1ResponseMessage should succeed");

    // Then
    assert!(matches!(
        deserialized_as_v1,
        V1ResponseMessage::SealedHeaders(None)
    ));
}

#[test]
fn codec__read_response_is_backwards_compatible_with_v1() {
    // Given
    let response = V1ResponseMessage::SealedHeaders(None);
    let codec = RequestResponseMessageHandler::new(MAX_REQUEST_SIZE);

    // When
    let buf = codec.codec.encode_v1_response(&response);
    let deserialized = codec
        .read_response(&RequestResponseProtocol::V1, buf.as_slice())
        .expect("Valid Vec<SealedBlockHeader> is deserialized using v1");

    // Then
    assert!(matches!(
        deserialized,
        V2ResponseMessage::SealedHeaders(Err(ResponseMessageErrorCode::ProtocolV1EmptyResponse))
    ));
}
