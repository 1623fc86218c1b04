//! The two messages that can answer the encrypted handshake: the hello that
//! completes it and the disconnect that ends it.

use vstd::prelude::*;
use crate::bytes::{copy_range, push_all};
use crate::error::HandshakeError;
use crate::keys::{convert_bytes_to_public_key, is_public_key, PublicKey};
use crate::rlp_items::{
    bytes_at, decode_single_byte, encode_bytes, encode_list, encode_u64, item_at, item_count,
    read_bytes_at, read_port_at, read_text_at, read_uint_at, port_at, rlp_item_at,
    rlp_item_count, rlp_of_bytes, rlp_of_list, rlp_of_u64, single_byte_value, text_at, uint_at,
};

verus! {

/// The message type of a hello.
pub const HELLO_ID: u8 = 0;

/// The message type of a disconnect.
pub const DISCONNECT_ID: u8 = 1;

/// A protocol that a node speaks, and in which version.
#[derive(Clone, Debug, PartialEq, Eq)]
pub struct Capability {
    /// The name of the protocol.
    pub name: String,
    /// The version of the protocol.
    pub version: usize,
}

/// A capability as a mathematical value.
pub struct CapabilityView {
    pub name: Seq<char>,
    pub version: usize,
}

impl View for Capability {
    type V = CapabilityView;

    open spec fn view(&self) -> CapabilityView {
        CapabilityView { name: self.name@, version: self.version }
    }
}

/// The peer's goodbye.
#[derive(Clone, Copy, Debug, PartialEq, Eq)]
pub struct Disconnect {
    /// Why the peer leaves.
    pub reason: usize,
}

/// What a node says of itself once the session keys stand.
#[derive(Clone, Debug, PartialEq, Eq)]
pub struct HelloMessage {
    /// The version of the transport protocol.
    pub protocol_version: usize,
    /// The name and version of the node's software.
    pub client_version: String,
    /// The protocols that the node speaks, in its order.
    pub capabilities: Vec<Capability>,
    /// The port on which the node listens.
    pub port: u16,
    /// The node's public key.
    pub id: PublicKey,
}

/// A hello as a mathematical value.
pub struct HelloView {
    pub protocol_version: usize,
    pub client_version: Seq<char>,
    pub capabilities: Seq<CapabilityView>,
    pub port: u16,
    pub id: Seq<u8>,
}

/// The capabilities as mathematical values.
pub open spec fn capability_views(capabilities: Seq<Capability>) -> Seq<CapabilityView> {
    Seq::new(capabilities.len(), |i: int| capabilities[i]@)
}

impl View for HelloMessage {
    type V = HelloView;

    open spec fn view(&self) -> HelloView {
        HelloView {
            protocol_version: self.protocol_version,
            client_version: self.client_version@,
            capabilities: capability_views(self.capabilities@),
            port: self.port,
            id: self.id@,
        }
    }
}

/// The capability encoded in `item`: a list of a name and a version.
pub open spec fn capability_of(item: Seq<u8>) -> Option<CapabilityView> {
    match (text_at(item, 0), uint_at(item, 1)) {
        (Some(name), Some(version)) => Some(CapabilityView { name, version }),
        _ => None,
    }
}

/// The capability at position `index` of a list of capabilities.
pub open spec fn capability_at(list: Seq<u8>, index: usize) -> Option<CapabilityView> {
    match rlp_item_at(list, index) {
        Some(item) => capability_of(item),
        None => None,
    }
}

/// The number of capabilities to read from `list`: the number of its items,
/// and none where it is no list.
pub open spec fn capability_count(list: Seq<u8>) -> usize {
    match rlp_item_count(list) {
        Some(count) => count,
        None => 0,
    }
}

/// The capabilities encoded in `list`, if every one of them can be read.
pub open spec fn capabilities_of(list: Seq<u8>) -> Option<Seq<CapabilityView>> {
    if forall|i: usize| i < capability_count(list) ==> capability_at(list, i) is Some {
        Some(
            Seq::new(
                capability_count(list) as nat,
                |i: int| capability_at(list, i as usize)->Some_0,
            ),
        )
    } else {
        None
    }
}

/// The hello encoded in `payload`: a list of the protocol version, the client
/// version, the capabilities, the port and the 64 bytes of the public key.
///
/// A field that cannot be read makes the encoding invalid; key bytes that
/// are not 64 bytes of a point of the curve make the key invalid.
pub open spec fn hello_of(payload: Seq<u8>) -> Result<HelloView, HandshakeError> {
    let protocol_version = uint_at(payload, 0);
    let client_version = text_at(payload, 1);
    let capabilities = match rlp_item_at(payload, 2) {
        Some(list) => capabilities_of(list),
        None => None,
    };
    let port = port_at(payload, 3);
    let id = bytes_at(payload, 4);
    if protocol_version is None || client_version is None || capabilities is None || port is None
        || id is None {
        Err(HandshakeError::InvalidStructuredEncoding)
    } else if !is_public_key(id->Some_0) {
        Err(HandshakeError::InvalidPublicKey)
    } else {
        Ok(
            HelloView {
                protocol_version: protocol_version->Some_0,
                client_version: client_version->Some_0,
                capabilities: capabilities->Some_0,
                port: port->Some_0,
                id: id->Some_0,
            },
        )
    }
}

/// The reason encoded in `payload`: the first item of a list.
pub open spec fn disconnect_of(payload: Seq<u8>) -> Option<usize> {
    uint_at(payload, 0)
}

/// What the payload of a frame decodes to.
///
/// Its first byte is the message type. Type 0 is a hello, decoded from the
/// rest. Every other type is read as a disconnect and reported as a failure
/// with the peer's reason. An empty payload, a first byte that is no message
/// type, and a disconnect that cannot be read are invalid encodings.
pub open spec fn frame_decoded(frame: Seq<u8>) -> Result<HelloView, HandshakeError> {
    if frame.len() == 0 {
        Err(HandshakeError::InvalidStructuredEncoding)
    } else {
        match single_byte_value(frame[0]) {
            None => Err(HandshakeError::InvalidStructuredEncoding),
            Some(id) => if id == HELLO_ID {
                hello_of(frame.skip(1))
            } else {
                match disconnect_of(frame.skip(1)) {
                    Some(reason) => Err(HandshakeError::PeerDisconnected { reason }),
                    None => Err(HandshakeError::InvalidStructuredEncoding),
                }
            },
        }
    }
}

impl Capability {
    /// Reads a capability from its encoding.
    pub fn decode(item: &[u8]) -> (r: Option<Capability>)
        ensures
            r is Some <==> capability_of(item@) is Some,
            r is Some ==> r->Some_0@ == capability_of(item@)->Some_0,
    {
        let name: String = match read_text_at(item, 0) {
            Some(name) => name,
            None => { return None; },
        };
        let version: usize = match read_uint_at(item, 1) {
            Some(version) => version,
            None => { return None; },
        };
        Some(Capability { name, version })
    }

    /// The encoding of this capability: the list of its name and version.
    pub open spec fn wire(self) -> Seq<u8> {
        rlp_of_list(
            rlp_of_bytes(vstd::utf8::encode_utf8(self.name@)) + rlp_of_u64(self.version as u64),
        )
    }

    /// Encodes this capability.
    pub fn encode(&self) -> (out: Vec<u8>)
        ensures
            out@ == self.wire(),
    {
        let mut payload: Vec<u8> = encode_bytes(self.name.as_str().as_bytes());
        let version: Vec<u8> = encode_u64(self.version as u64);
        push_all(&mut payload, version.as_slice());
        encode_list(payload.as_slice())
    }
}

impl Disconnect {
    /// Reads a disconnect from its encoding.
    pub fn decode(payload: &[u8]) -> (r: Option<Disconnect>)
        ensures
            r is Some <==> disconnect_of(payload@) is Some,
            r is Some ==> r->Some_0.reason == disconnect_of(payload@)->Some_0,
    {
        match read_uint_at(payload, 0) {
            Some(reason) => Some(Disconnect { reason }),
            None => None,
        }
    }

    /// The encoding of this disconnect: the list of its reason.
    pub open spec fn wire(self) -> Seq<u8> {
        rlp_of_list(rlp_of_u64(self.reason as u64))
    }

    /// Encodes this disconnect.
    pub fn encode(&self) -> (out: Vec<u8>)
        ensures
            out@ == self.wire(),
    {
        let reason: Vec<u8> = encode_u64(self.reason as u64);
        encode_list(reason.as_slice())
    }
}

/// Reads the capabilities out of their list.
fn read_capabilities(list: &[u8]) -> (r: Option<Vec<Capability>>)
    ensures
        r is Some <==> capabilities_of(list@) is Some,
        r is Some ==> capability_views(r->Some_0@) == capabilities_of(list@)->Some_0,
{
    let count: usize = match item_count(list) {
        Some(count) => count,
        None => 0,
    };
    let mut capabilities: Vec<Capability> = Vec::new();
    let mut i: usize = 0;
    while i < count
        invariant
            i <= count,
            count == capability_count(list@),
            capabilities@.len() == i,
            forall|j: usize| j < i ==> capability_at(list@, j) is Some,
            forall|j: int|
                0 <= j < i ==> capabilities@[j]@ == capability_at(list@, j as usize)->Some_0,
        decreases count - i,
    {
        let item: Vec<u8> = match item_at(list, i) {
            Some(item) => item,
            None => {
                assert(capability_at(list@, i) is None);
                return None;
            },
        };
        match Capability::decode(item.as_slice()) {
            Some(capability) => {
                capabilities.push(capability);
            },
            None => {
                assert(capability_at(list@, i) is None);
                return None;
            },
        }
        i += 1;
    }
    assert(capability_views(capabilities@) =~= capabilities_of(list@)->Some_0);
    Some(capabilities)
}

/// The encodings of the capabilities, laid end to end.
pub open spec fn capabilities_wire(capabilities: Seq<Capability>) -> Seq<u8>
    decreases capabilities.len(),
{
    if capabilities.len() == 0 {
        Seq::<u8>::empty()
    } else {
        capabilities_wire(capabilities.drop_last()) + capabilities.last().wire()
    }
}

/// The encoding of a hello with these fields: the list of the protocol
/// version, the client version, the list of the capabilities, the port and
/// the 64 bytes of the public key.
pub open spec fn hello_wire(
    protocol_version: usize,
    client_version: Seq<char>,
    capabilities: Seq<Capability>,
    port: u16,
    id: Seq<u8>,
) -> Seq<u8> {
    rlp_of_list(
        rlp_of_u64(protocol_version as u64) + rlp_of_bytes(vstd::utf8::encode_utf8(client_version))
            + rlp_of_list(capabilities_wire(capabilities)) + rlp_of_u64(port as u64)
            + rlp_of_bytes(id),
    )
}

impl HelloMessage {
    /// The encoding of this hello.
    pub open spec fn wire(self) -> Seq<u8> {
        hello_wire(
            self.protocol_version,
            self.client_version@,
            self.capabilities@,
            self.port,
            self.id@,
        )
    }

    /// Encodes this hello.
    pub fn encode(&self) -> (out: Vec<u8>)
        ensures
            out@ == self.wire(),
    {
        let mut capabilities: Vec<u8> = Vec::new();
        let mut i: usize = 0;
        while i < self.capabilities.len()
            invariant
                i <= self.capabilities.len(),
                capabilities@ == capabilities_wire(self.capabilities@.take(i as int)),
            decreases self.capabilities.len() - i,
        {
            let one: Vec<u8> = self.capabilities[i].encode();
            push_all(&mut capabilities, one.as_slice());
            proof {
                let next = self.capabilities@.take(i + 1);
                assert(next.drop_last() =~= self.capabilities@.take(i as int));
                assert(next.last() == self.capabilities@[i as int]);
            }
            i += 1;
        }
        assert(self.capabilities@.take(i as int) =~= self.capabilities@);
        let mut payload: Vec<u8> = encode_u64(self.protocol_version as u64);
        let client_version: Vec<u8> = encode_bytes(self.client_version.as_str().as_bytes());
        push_all(&mut payload, client_version.as_slice());
        let list: Vec<u8> = encode_list(capabilities.as_slice());
        push_all(&mut payload, list.as_slice());
        let port: Vec<u8> = encode_u64(self.port as u64);
        push_all(&mut payload, port.as_slice());
        let id: [u8; 64] = self.id.to_bytes();
        let id_item: Vec<u8> = encode_bytes(&id);
        push_all(&mut payload, id_item.as_slice());
        encode_list(payload.as_slice())
    }

    /// Reads a hello from its encoding.
    pub fn decode(payload: &[u8]) -> (r: Result<HelloMessage, HandshakeError>)
        ensures
            match r {
                Ok(hello) => hello_of(payload@) == Ok::<HelloView, HandshakeError>(hello@),
                Err(e) => hello_of(payload@) == Err::<HelloView, HandshakeError>(e),
            },
    {
        let protocol_version = read_uint_at(payload, 0);
        let client_version = read_text_at(payload, 1);
        let capabilities = match item_at(payload, 2) {
            Some(list) => read_capabilities(list.as_slice()),
            None => None,
        };
        let port = read_port_at(payload, 3);
        let id = read_bytes_at(payload, 4);
        match (protocol_version, client_version, capabilities, port, id) {
            (
                Some(protocol_version),
                Some(client_version),
                Some(capabilities),
                Some(port),
                Some(id),
            ) => {
                match convert_bytes_to_public_key(id.as_slice()) {
                    Ok(id) => Ok(
                        HelloMessage { protocol_version, client_version, capabilities, port, id },
                    ),
                    Err(e) => Err(e),
                }
            },
            _ => Err(HandshakeError::InvalidStructuredEncoding),
        }
    }
}

/// Decodes the payload of the frame that answers our hello.
///
/// Succeeds only on a hello. A disconnect is a failure that carries the
/// peer's reason, though it was decoded well.
pub fn decode_hello_message_frame(frame_bytes: Vec<u8>) -> (r: Result<
    HelloMessage,
    HandshakeError,
>)
    ensures
        match r {
            Ok(hello) => frame_decoded(frame_bytes@) == Ok::<HelloView, HandshakeError>(hello@),
            Err(e) => frame_decoded(frame_bytes@) == Err::<HelloView, HandshakeError>(e),
        },
{
    if frame_bytes.len() == 0 {
        return Err(HandshakeError::InvalidStructuredEncoding);
    }
    let m_id: u8 = match decode_single_byte(frame_bytes[0]) {
        Some(m_id) => m_id,
        None => { return Err(HandshakeError::InvalidStructuredEncoding); },
    };
    let rest: Vec<u8> = copy_range(frame_bytes.as_slice(), 1, frame_bytes.len());
    assert(rest@ =~= frame_bytes@.skip(1));
    if m_id == HELLO_ID {
        HelloMessage::decode(rest.as_slice())
    } else {
        match Disconnect::decode(rest.as_slice()) {
            Some(disconnect) => Err(HandshakeError::PeerDisconnected { reason: disconnect.reason }),
            None => Err(HandshakeError::InvalidStructuredEncoding),
        }
    }
}

/// A payload that does not begin with the byte of message type 0 is never a
/// hello: it is reported as a failure, and where its rest is a disconnect
/// that can be read, the failure carries the peer's reason.
pub proof fn lemma_only_type_zero_is_hello(frame: Seq<u8>)
    requires
        frame.len() > 0,
        single_byte_value(frame[0]) != Some(HELLO_ID),
    ensures
        frame_decoded(frame) is Err,
        single_byte_value(frame[0]) is Some && disconnect_of(frame.skip(1)) is Some
            ==> frame_decoded(frame) == Err::<HelloView, HandshakeError>(
            HandshakeError::PeerDisconnected { reason: disconnect_of(frame.skip(1))->Some_0 },
        ),
{
}

} // verus!
