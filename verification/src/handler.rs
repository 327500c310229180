//! The message handlers: the version-aware request/response handler, which
//! selects the wire schema from the negotiated protocol version and enforces
//! the configured maximum sizes, and the single-schema gossip handler.

use vstd::prelude::*;

use crate::PostcardCodec;
use crate::codec::gossip_wire;
use crate::codec::request_wire;
use crate::codec::v1_wire;
use crate::codec::v2_wire;
use crate::messages::CodecError;
use crate::messages::GossipsubMessage;
use crate::messages::RequestMessage;
use crate::messages::RequestModel;
use crate::messages::RequestResponseProtocol;
use crate::messages::V1ResponseModel;
use crate::messages::V2ResponseMessage;
use crate::messages::V2ResponseModel;
use crate::messages::to_v1;
use crate::messages::to_v2;

verus! {

/// The maximum encoded size of a request, in bytes.
pub const MAX_REQUEST_SIZE: u32 = 1024;

/// The bytes a response is sent as, given the peer's protocol version: the
/// canonical V2 wire form for a V2 peer, and for a V1 peer the V1 wire form
/// of the downgraded response.
pub open spec fn response_wire(protocol: RequestResponseProtocol, m: V2ResponseModel) -> Seq<u8> {
    match protocol {
        RequestResponseProtocol::V2 => v2_wire(m),
        RequestResponseProtocol::V1 => v1_wire(to_v1(m)),
    }
}

/// Version-aware codec for the request/response substream.
pub struct RequestResponseMessageHandler {
    pub codec: PostcardCodec,
    pub max_response_size: u32,
}

impl RequestResponseMessageHandler {
    /// A handler enforcing the given maximum response size; the bound must
    /// be strictly positive.
    pub fn new(max_block_size: u32) -> (r: Self)
        requires
            max_block_size > 0,
        ensures
            r.max_response_size == max_block_size,
    {
        RequestResponseMessageHandler { codec: PostcardCodec, max_response_size: max_block_size }
    }

    /// Encode a canonical response for a peer speaking `protocol` and append
    /// the bytes to `sink`. A response for a V1 peer is downgraded first:
    /// success keeps its payload, every error code collapses to absence.
    /// Fails, writing nothing, iff the encoded bytes exceed the maximum
    /// response size.
    pub fn write_response(
        &self,
        protocol: &RequestResponseProtocol,
        sink: &mut Vec<u8>,
        response: V2ResponseMessage,
    ) -> (r: Result<(), CodecError>)
        ensures
            response_wire(*protocol, response@).len() <= self.max_response_size ==> r is Ok
                && final(sink)@ == old(sink)@ + response_wire(*protocol, response@),
            response_wire(*protocol, response@).len() > self.max_response_size ==> r == Err::<
                (),
                CodecError,
            >(CodecError::SizeLimitExceeded) && final(sink)@ == old(sink)@,
    {
        let mut data = match protocol {
            RequestResponseProtocol::V2 => self.codec.encode_v2_response(&response),
            RequestResponseProtocol::V1 => {
                let downgraded = response.into_v1();
                self.codec.encode_v1_response(&downgraded)
            },
        };
        if data.len() > self.max_response_size as usize {
            return Err(CodecError::SizeLimitExceeded);
        }
        sink.append(&mut data);
        Ok(())
    }

    /// Decode a response read from a peer speaking `protocol` and normalize
    /// it to the canonical V2 shape: bytes from a V1 peer that are exactly
    /// the V1 wire form of a message decode to its upgrade (a present
    /// payload becomes success, absence becomes the designated legacy error
    /// code), and V2 bytes decode unchanged. Fails with a size violation iff
    /// the input exceeds the maximum response size, and with a decode
    /// failure otherwise when the bytes are malformed.
    pub fn read_response(
        &self,
        protocol: &RequestResponseProtocol,
        bytes: &[u8],
    ) -> (r: Result<V2ResponseMessage, CodecError>)
        ensures
            bytes@.len() > self.max_response_size ==> r == Err::<
                V2ResponseMessage,
                CodecError,
            >(CodecError::SizeLimitExceeded),
            bytes@.len() <= self.max_response_size ==> match *protocol {
                RequestResponseProtocol::V2 => forall|m: V2ResponseModel|
                    bytes@ == v2_wire(m) ==> r is Ok && r.unwrap()@ == m,
                RequestResponseProtocol::V1 => forall|m: V1ResponseModel|
                    bytes@ == v1_wire(m) ==> r is Ok && r.unwrap()@ == to_v2(m),
            },
            bytes@.len() <= self.max_response_size && r is Err ==> r == Err::<
                V2ResponseMessage,
                CodecError,
            >(CodecError::MalformedMessage),
    {
        if bytes.len() > self.max_response_size as usize {
            return Err(CodecError::SizeLimitExceeded);
        }
        match protocol {
            RequestResponseProtocol::V2 => self.codec.decode_v2_response(bytes),
            RequestResponseProtocol::V1 => {
                match self.codec.decode_v1_response(bytes) {
                    Ok(legacy) => Ok(legacy.into_v2()),
                    Err(e) => Err(e),
                }
            },
        }
    }

    /// Encode a request, the same for every protocol version, and append the
    /// bytes to `sink`. Fails, writing nothing, iff the encoded bytes exceed
    /// the maximum request size.
    pub fn write_request(&self, sink: &mut Vec<u8>, request: RequestMessage) -> (r: Result<
        (),
        CodecError,
    >)
        ensures
            request_wire(request@).len() <= MAX_REQUEST_SIZE ==> r is Ok && final(sink)@ == old(sink)@
                + request_wire(request@),
            request_wire(request@).len() > MAX_REQUEST_SIZE ==> r == Err::<(), CodecError>(
                CodecError::SizeLimitExceeded,
            ) && final(sink)@ == old(sink)@,
    {
        let mut data = self.codec.encode_request(&request);
        if data.len() > MAX_REQUEST_SIZE as usize {
            return Err(CodecError::SizeLimitExceeded);
        }
        sink.append(&mut data);
        Ok(())
    }

    /// Decode a request; faithful on exact encodings. Fails with a size
    /// violation iff the input exceeds the maximum request size, and with a
    /// decode failure otherwise when the bytes are malformed.
    pub fn read_request(&self, bytes: &[u8]) -> (r: Result<RequestMessage, CodecError>)
        ensures
            bytes@.len() > MAX_REQUEST_SIZE ==> r == Err::<RequestMessage, CodecError>(
                CodecError::SizeLimitExceeded,
            ),
            bytes@.len() <= MAX_REQUEST_SIZE ==> forall|m: RequestModel|
                bytes@ == request_wire(m) ==> r is Ok && r.unwrap()@ == m,
            bytes@.len() <= MAX_REQUEST_SIZE && r is Err ==> r == Err::<
                RequestMessage,
                CodecError,
            >(CodecError::MalformedMessage),
    {
        if bytes.len() > MAX_REQUEST_SIZE as usize {
            return Err(CodecError::SizeLimitExceeded);
        }
        self.codec.decode_request(bytes)
    }
}

/// Codec for the broadcast gossip path: a single schema, no version
/// negotiation and no size bound of its own.
pub struct GossipsubMessageHandler {
    pub codec: PostcardCodec,
}

impl GossipsubMessageHandler {
    /// A gossip handler over the postcard codec.
    pub fn new() -> (r: Self)
        ensures
            r == (GossipsubMessageHandler { codec: PostcardCodec }),
    {
        GossipsubMessageHandler { codec: PostcardCodec }
    }

    /// Encode a gossip message.
    pub fn encode(&self, message: &GossipsubMessage) -> (r: Vec<u8>)
        ensures
            r@ == gossip_wire(*message),
    {
        self.codec.encode_gossip_message(message)
    }

    /// Decode a gossip message; faithful on exact encodings.
    pub fn decode(&self, bytes: &[u8]) -> (r: Result<GossipsubMessage, CodecError>)
        ensures
            forall|m: GossipsubMessage| bytes@ == gossip_wire(m) ==> r == Ok::<
                GossipsubMessage,
                CodecError,
            >(m),
            r is Err ==> r == Err::<GossipsubMessage, CodecError>(CodecError::MalformedMessage),
    {
        self.codec.decode_gossip_message(bytes)
    }
}

} // verus!
