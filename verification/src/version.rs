//! The version payload and the four messages of the plaintext handshake.

use vstd::prelude::*;
use vstd::string::StringExecFns;
use crate::bytes::{
    array_from, copy_range, i32_from_le, i32_le_bytes, i64_from_le, i64_le_bytes,
    lemma_i32_le_round_trip, lemma_i64_le_round_trip, lemma_u16_be_round_trip, lemma_u32_le_round_trip,
    lemma_u64_le_round_trip, push_all, push_i32_le, push_i64_le, push_u16_be, push_u32_le,
    push_u64_le, read_i32_le, read_i64_le, read_u16_be, read_u32_le, read_u64_le, same_bytes,
    u16_be_bytes, u16_from_be, u32_from_le, u32_le_bytes, u64_from_le, u64_le_bytes,
};
use crate::envelope::{
    command_name, command_name_of, encode_envelope, envelope_bytes, lemma_payload_in_envelope,
    HEADER_LEN, VERACK_CMD, VERSION_CMD,
};
use crate::error::HandshakeError;

verus! {

/// Bytes of a version payload before its nonce: version, services,
/// timestamp and the two addresses.
pub const NONCE_OFFSET: usize = 72;

/// Bytes skipped before the command of an acknowledgement is read.
pub const ACK_COMMAND_OFFSET: usize = 8;

/// One side of a connection, as the transport reports it.
#[allow(inconsistent_fields)]
#[derive(Clone, Copy, Debug, PartialEq, Eq)]
pub enum Endpoint {
    /// An IPv4 address and a port.
    V4 { ip: [u8; 4], port: u16 },
    /// An IPv6 address and a port.
    V6 { ip: [u8; 16], port: u16 },
}

/// A network address as the version message carries it.
#[derive(Clone, Copy, Debug, PartialEq, Eq)]
pub struct NetAddr {
    /// The services of the node at this address.
    pub services: u64,
    /// An IPv6 address; an IPv4 address stands behind the mapping prefix.
    pub ip: [u8; 16],
    /// The port, written most significant byte first.
    pub port: u16,
}

/// The sixteen bytes that stand for an IPv4 address: ten zero bytes, two
/// bytes `0xff`, then the address.
pub open spec fn mapped_ipv4(ip: Seq<u8>) -> Seq<u8> {
    seq![0u8, 0u8, 0u8, 0u8, 0u8, 0u8, 0u8, 0u8, 0u8, 0u8, 0xffu8, 0xffu8] + ip
}

/// A network address as a mathematical value.
pub struct NetAddrView {
    pub services: u64,
    pub ip: Seq<u8>,
    pub port: u16,
}

impl View for NetAddr {
    type V = NetAddrView;

    open spec fn view(&self) -> NetAddrView {
        NetAddrView { services: self.services, ip: self.ip@, port: self.port }
    }
}

/// The address that 26 bytes hold.
pub open spec fn net_addr_of(bytes: Seq<u8>) -> NetAddrView
    recommends
        bytes.len() == 26,
{
    NetAddrView {
        services: u64_from_le(bytes.subrange(0, 8)),
        ip: bytes.subrange(8, 24),
        port: u16_from_be(bytes.subrange(24, 26)),
    }
}

/// The 26 bytes of an address: services little-endian, the address, the port
/// big-endian.
pub open spec fn net_addr_wire(services: u64, ip: Seq<u8>, port: u16) -> Seq<u8> {
    u64_le_bytes(services) + ip + u16_be_bytes(port)
}

impl NetAddr {
    /// The 26 bytes of this address.
    pub open spec fn wire(self) -> Seq<u8> {
        net_addr_wire(self.services, self.ip@, self.port)
    }

    /// The address of an IPv4 endpoint.
    pub fn from_ipv4(services: u64, ip: [u8; 4], port: u16) -> (addr: NetAddr)
        ensures
            addr.services == services,
            addr.ip@ == mapped_ipv4(ip@),
            addr.port == port,
    {
        let mapped: [u8; 16] = [
            0,
            0,
            0,
            0,
            0,
            0,
            0,
            0,
            0,
            0,
            0xff,
            0xff,
            ip[0],
            ip[1],
            ip[2],
            ip[3],
        ];
        assert(mapped@ =~= mapped_ipv4(ip@));
        NetAddr { services, ip: mapped, port }
    }

    /// Reads the address in the 26 bytes of `buf` from `at` on.
    pub fn decode_at(buf: &[u8], at: usize) -> (addr: NetAddr)
        requires
            at + 26 <= buf.len(),
        ensures
            addr@ == net_addr_of(buf@.subrange(at as int, at + 26)),
    {
        let services: u64 = read_u64_le(buf, at);
        let ip: [u8; 16] = array_from::<16>(buf, at + 8);
        let port: u16 = read_u16_be(buf, at + 24);
        proof {
            let field = buf@.subrange(at as int, at + 26);
            assert(field.subrange(0, 8) =~= buf@.subrange(at as int, at + 8));
            assert(field.subrange(8, 24) =~= buf@.subrange(at + 8, at + 24));
            assert(field.subrange(24, 26) =~= buf@.subrange(at + 24, at + 26));
        }
        NetAddr { services, ip, port }
    }

    /// Appends the 26 bytes of this address to `out`.
    pub fn encode_into(&self, out: &mut Vec<u8>)
        ensures
            final(out)@ == old(out)@ + self.wire(),
    {
        push_u64_le(out, self.services);
        push_all(out, &self.ip);
        push_u16_be(out, self.port);
        assert(out@ =~= old(out)@ + self.wire());
    }
}

/// The length prefix of a string of `n` bytes: one byte below `0xfd`,
/// else a marker and the length in two, four or eight bytes, little-endian.
pub open spec fn compact_size(n: u64) -> Seq<u8> {
    if n < 0xfd {
        seq![n as u8]
    } else if n <= 0xffff {
        seq![0xfdu8, (n % 0x100) as u8, (n / 0x100) as u8]
    } else if n <= 0xffff_ffff {
        seq![0xfeu8] + u32_le_bytes(n as u32)
    } else {
        seq![0xffu8] + u64_le_bytes(n)
    }
}

/// Appends the length prefix of a string of `n` bytes to `out`.
pub fn push_compact_size(out: &mut Vec<u8>, n: u64)
    ensures
        final(out)@ == old(out)@ + compact_size(n),
{
    if n < 0xfd {
        out.push(n as u8);
    } else if n <= 0xffff {
        out.push(0xfd);
        out.push((n % 0x100) as u8);
        out.push((n / 0x100) as u8);
    } else if n <= 0xffff_ffff {
        out.push(0xfe);
        push_u32_le(out, n as u32);
    } else {
        out.push(0xff);
        push_u64_le(out, n);
    }
    assert(out@ =~= old(out)@ + compact_size(n));
}

/// The length that the prefix at the front of `bytes` announces, and the
/// number of bytes that the prefix takes; `None` where the bytes end within
/// the prefix.
pub open spec fn compact_size_of(bytes: Seq<u8>) -> Option<(u64, int)> {
    if bytes.len() == 0 {
        None
    } else if bytes[0] < 0xfd {
        Some((bytes[0] as u64, 1))
    } else if bytes[0] == 0xfd {
        if bytes.len() < 3 {
            None
        } else {
            Some(((bytes[1] as int + 0x100 * (bytes[2] as int)) as u64, 3))
        }
    } else if bytes[0] == 0xfe {
        if bytes.len() < 5 {
            None
        } else {
            Some((u32_from_le(bytes.subrange(1, 5)) as u64, 5))
        }
    } else {
        if bytes.len() < 9 {
            None
        } else {
            Some((u64_from_le(bytes.subrange(1, 9)), 9))
        }
    }
}

/// Reads the length prefix in `buf` from `at` on.
pub fn read_compact_size(buf: &[u8], at: usize) -> (r: Option<(u64, usize)>)
    requires
        at <= buf.len(),
    ensures
        r is Some <==> compact_size_of(buf@.skip(at as int)) is Some,
        r is Some ==> r->Some_0.0 == compact_size_of(buf@.skip(at as int))->Some_0.0
            && r->Some_0.1 == compact_size_of(buf@.skip(at as int))->Some_0.1,
{
    let ghost rest = buf@.skip(at as int);
    let room: usize = buf.len() - at;
    if room == 0 {
        return None;
    }
    let first: u8 = buf[at];
    assert(first == rest[0]);
    if first < 0xfd {
        Some((first as u64, 1))
    } else if first == 0xfd {
        if room < 3 {
            return None;
        }
        assert(buf@[at + 1] == rest[1] && buf@[at + 2] == rest[2]);
        Some((buf[at + 1] as u64 + 0x100 * (buf[at + 2] as u64), 3))
    } else if first == 0xfe {
        if room < 5 {
            return None;
        }
        assert(rest.subrange(1, 5) =~= buf@.subrange(at + 1, at + 5));
        Some((read_u32_le(buf, at + 1) as u64, 5))
    } else {
        if room < 9 {
            return None;
        }
        assert(rest.subrange(1, 9) =~= buf@.subrange(at + 1, at + 9));
        Some((read_u64_le(buf, at + 1), 9))
    }
}

/// A length prefix has from one to nine bytes.
pub proof fn lemma_compact_size_len(n: u64)
    ensures
        1 <= compact_size(n).len() <= 9,
{
    if n < 0xfd {
    } else if n <= 0xffff {
    } else if n <= 0xffff_ffff {
        assert(u32_le_bytes(n as u32).len() == 4);
    } else {
        assert(u64_le_bytes(n).len() == 8);
    }
}

/// Reading back a length prefix gives the length, whatever follows it.
pub proof fn lemma_compact_size_round_trip(n: u64, rest: Seq<u8>)
    ensures
        1 <= compact_size(n).len() <= 9,
        compact_size_of(compact_size(n) + rest) == Some((n, compact_size(n).len() as int)),
{
    let bytes = compact_size(n) + rest;
    if n < 0xfd {
    } else if n <= 0xffff {
        assert(bytes[1] == (n % 0x100) as u8);
        assert(bytes[2] == (n / 0x100) as u8);
    } else if n <= 0xffff_ffff {
        lemma_u32_le_round_trip(n as u32);
        assert(bytes.subrange(1, 5) =~= u32_le_bytes(n as u32));
    } else {
        lemma_u64_le_round_trip(n);
        assert(bytes.subrange(1, 9) =~= u64_le_bytes(n));
    }
}

/// What a node says of itself when a connection opens.
#[derive(Clone, Debug)]
pub struct VersionPayload {
    /// The protocol version that the node speaks.
    pub protocol_version: i32,
    /// The services that the node offers.
    pub services: u64,
    /// Seconds since the Unix epoch.
    pub timestamp: i64,
    /// The address of the node that receives the message.
    pub receiver_addr: NetAddr,
    /// The address of the node that sends it.
    pub sender_addr: NetAddr,
    /// Chosen at random by the sender, to detect a connection to itself.
    pub nonce: u64,
    /// The sender's user agent; may be empty.
    pub user_agent: Vec<u8>,
    /// The last block that the sender has.
    pub start_height: i32,
    /// Whether the peer should announce relayed transactions.
    pub relay: bool,
}

/// The fields of a version payload before the nonce: the version, the
/// services and the timestamp, little-endian, and the two addresses. 72
/// bytes.
pub open spec fn version_head(
    protocol_version: i32,
    services: u64,
    timestamp: i64,
    receiver: Seq<u8>,
    sender: Seq<u8>,
) -> Seq<u8> {
    i32_le_bytes(protocol_version) + u64_le_bytes(services) + i64_le_bytes(timestamp) + receiver
        + sender
}

/// The fields of a version payload after the nonce: the user agent behind
/// its length, the start height, little-endian, and the relay flag.
pub open spec fn version_tail(user_agent: Seq<u8>, start_height: i32, relay: bool) -> Seq<u8> {
    compact_size(user_agent.len() as u64) + user_agent + i32_le_bytes(start_height) + seq![
        if relay {
            1u8
        } else {
            0u8
        },
    ]
}

impl VersionPayload {
    /// The fields before the nonce: 72 bytes.
    pub open spec fn wire_head(self) -> Seq<u8> {
        version_head(
            self.protocol_version,
            self.services,
            self.timestamp,
            self.receiver_addr.wire(),
            self.sender_addr.wire(),
        )
    }

    /// The fields after the nonce.
    pub open spec fn wire_tail(self) -> Seq<u8> {
        version_tail(self.user_agent@, self.start_height, self.relay)
    }

    /// The bytes of the payload. Every integer is little-endian but the two
    /// ports.
    pub open spec fn wire(self) -> Seq<u8> {
        self.wire_head() + u64_le_bytes(self.nonce) + self.wire_tail()
    }

    /// The bytes of the payload.
    pub fn encode(&self) -> (out: Vec<u8>)
        ensures
            out@ == self.wire(),
    {
        let mut out: Vec<u8> = Vec::new();
        push_i32_le(&mut out, self.protocol_version);
        push_u64_le(&mut out, self.services);
        push_i64_le(&mut out, self.timestamp);
        self.receiver_addr.encode_into(&mut out);
        self.sender_addr.encode_into(&mut out);
        assert(out@ =~= self.wire_head());
        push_u64_le(&mut out, self.nonce);
        let ghost before_tail = out@;
        push_compact_size(&mut out, self.user_agent.len() as u64);
        push_all(&mut out, self.user_agent.as_slice());
        push_i32_le(&mut out, self.start_height);
        out.push(if self.relay { 1 } else { 0 });
        assert(out@ =~= before_tail + self.wire_tail());
        out
    }
}

/// A version payload as a mathematical value.
pub struct VersionPayloadView {
    pub protocol_version: i32,
    pub services: u64,
    pub timestamp: i64,
    pub receiver_addr: NetAddrView,
    pub sender_addr: NetAddrView,
    pub nonce: u64,
    pub user_agent: Seq<u8>,
    pub start_height: i32,
    pub relay: bool,
}

impl View for VersionPayload {
    type V = VersionPayloadView;

    open spec fn view(&self) -> VersionPayloadView {
        VersionPayloadView {
            protocol_version: self.protocol_version,
            services: self.services,
            timestamp: self.timestamp,
            receiver_addr: self.receiver_addr@,
            sender_addr: self.sender_addr@,
            nonce: self.nonce,
            user_agent: self.user_agent@,
            start_height: self.start_height,
            relay: self.relay,
        }
    }
}

/// Bytes of a version payload up to and with its nonce.
pub const AGENT_OFFSET: usize = 80;

/// The payload that `bytes` hold at their front: the fixed fields, the user
/// agent behind its length, the start height and the relay flag, which is
/// set by any byte but zero. Bytes behind the relay flag are not looked at.
/// Where the bytes end before the relay flag the input is truncated.
pub open spec fn version_payload_of(bytes: Seq<u8>) -> Result<VersionPayloadView, HandshakeError> {
    if bytes.len() < AGENT_OFFSET {
        Err(HandshakeError::TruncatedInput)
    } else {
        match compact_size_of(bytes.skip(AGENT_OFFSET as int)) {
            None => Err(HandshakeError::TruncatedInput),
            Some((n, width)) => {
                let agent = AGENT_OFFSET + width;
                if bytes.len() < agent + n + 5 {
                    Err(HandshakeError::TruncatedInput)
                } else {
                    Ok(
                        VersionPayloadView {
                            protocol_version: i32_from_le(bytes.subrange(0, 4)),
                            services: u64_from_le(bytes.subrange(4, 12)),
                            timestamp: i64_from_le(bytes.subrange(12, 20)),
                            receiver_addr: net_addr_of(bytes.subrange(20, 46)),
                            sender_addr: net_addr_of(bytes.subrange(46, 72)),
                            nonce: u64_from_le(bytes.subrange(72, 80)),
                            user_agent: bytes.subrange(agent, agent + n),
                            start_height: i32_from_le(bytes.subrange(agent + n, agent + n + 4)),
                            relay: bytes[agent + n + 4] != 0,
                        },
                    )
                }
            },
        }
    }
}

impl VersionPayload {
    /// Reads a version payload.
    ///
    /// Fails with `TruncatedInput` where the bytes end before the relay flag.
    pub fn decode(payload: &[u8]) -> (r: Result<VersionPayload, HandshakeError>)
        ensures
            match r {
                Ok(p) => version_payload_of(payload@) == Ok::<VersionPayloadView, HandshakeError>(
                    p@,
                ),
                Err(e) => version_payload_of(payload@) == Err::<
                    VersionPayloadView,
                    HandshakeError,
                >(e),
            },
    {
        if payload.len() < AGENT_OFFSET {
            return Err(HandshakeError::TruncatedInput);
        }
        let (n, width) = match read_compact_size(payload, AGENT_OFFSET) {
            Some(prefix) => prefix,
            None => { return Err(HandshakeError::TruncatedInput); },
        };
        let agent: usize = AGENT_OFFSET + width;
        let room: usize = payload.len() - agent;
        if room < 5 || n > (room - 5) as u64 {
            return Err(HandshakeError::TruncatedInput);
        }
        let end: usize = agent + n as usize;
        Ok(
            VersionPayload {
                protocol_version: read_i32_le(payload, 0),
                services: read_u64_le(payload, 4),
                timestamp: read_i64_le(payload, 12),
                receiver_addr: NetAddr::decode_at(payload, 20),
                sender_addr: NetAddr::decode_at(payload, 46),
                nonce: read_u64_le(payload, 72),
                user_agent: copy_range(payload, agent, end),
                start_height: read_i32_le(payload, end),
                relay: payload[end + 4] != 0,
            },
        )
    }
}

/// Reading back the bytes of an address gives the address.
pub proof fn lemma_net_addr_round_trip(addr: NetAddr)
    ensures
        addr.wire().len() == 26,
        net_addr_of(addr.wire()) == addr@,
{
    let bytes = addr.wire();
    lemma_u64_le_round_trip(addr.services);
    lemma_u16_be_round_trip(addr.port);
    assert(addr.ip@.len() == 16);
    assert(bytes.subrange(0, 8) =~= u64_le_bytes(addr.services));
    assert(bytes.subrange(8, 24) =~= addr.ip@);
    assert(bytes.subrange(24, 26) =~= u16_be_bytes(addr.port));
}

/// Where each of seven parts stands in the bytes that they make when laid end
/// to end.
proof fn lemma_seven_parts(
    a: Seq<u8>,
    b: Seq<u8>,
    c: Seq<u8>,
    d: Seq<u8>,
    e: Seq<u8>,
    f: Seq<u8>,
    g: Seq<u8>,
)
    ensures
        ({
            let all = a + b + c + d + e + f + g;
            let at_b = a.len() as int;
            let at_c = at_b + b.len();
            let at_d = at_c + c.len();
            let at_e = at_d + d.len();
            let at_f = at_e + e.len();
            let at_g = at_f + f.len();
            &&& all.len() == at_g + g.len()
            &&& all.subrange(0, at_b) == a
            &&& all.subrange(at_b, at_c) == b
            &&& all.subrange(at_c, at_d) == c
            &&& all.subrange(at_d, at_e) == d
            &&& all.subrange(at_e, at_f) == e
            &&& all.subrange(at_f, at_g) == f
            &&& all.skip(at_g) == g
        }),
{
    let all = a + b + c + d + e + f + g;
    let at_b = a.len() as int;
    let at_c = at_b + b.len();
    let at_d = at_c + c.len();
    let at_e = at_d + d.len();
    let at_f = at_e + e.len();
    let at_g = at_f + f.len();
    assert(all.subrange(0, at_b) =~= a);
    assert(all.subrange(at_b, at_c) =~= b);
    assert(all.subrange(at_c, at_d) =~= c);
    assert(all.subrange(at_d, at_e) =~= d);
    assert(all.subrange(at_e, at_f) =~= e);
    assert(all.subrange(at_f, at_g) =~= f);
    assert(all.skip(at_g) =~= g);
}

/// Where each field of a payload stands in its bytes.
pub proof fn lemma_wire_fields(p: VersionPayload)
    ensures
        p.wire().len() == AGENT_OFFSET + p.wire_tail().len(),
        p.wire().subrange(0, 4) == i32_le_bytes(p.protocol_version),
        p.wire().subrange(4, 12) == u64_le_bytes(p.services),
        p.wire().subrange(12, 20) == i64_le_bytes(p.timestamp),
        p.wire().subrange(20, 46) == p.receiver_addr.wire(),
        p.wire().subrange(46, 72) == p.sender_addr.wire(),
        p.wire().subrange(72, 80) == u64_le_bytes(p.nonce),
        p.wire().skip(AGENT_OFFSET as int) == p.wire_tail(),
{
    let a = i32_le_bytes(p.protocol_version);
    let b = u64_le_bytes(p.services);
    let c = i64_le_bytes(p.timestamp);
    let d = p.receiver_addr.wire();
    let e = p.sender_addr.wire();
    let f = u64_le_bytes(p.nonce);
    let g = p.wire_tail();
    lemma_field_lens(p);
    lemma_seven_parts(a, b, c, d, e, f, g);
}

/// The fixed fields of a payload have 4, 8, 8, 26, 26 and 8 bytes.
proof fn lemma_field_lens(p: VersionPayload)
    ensures
        i32_le_bytes(p.protocol_version).len() == 4,
        u64_le_bytes(p.services).len() == 8,
        i64_le_bytes(p.timestamp).len() == 8,
        p.receiver_addr.wire().len() == 26,
        p.sender_addr.wire().len() == 26,
        u64_le_bytes(p.nonce).len() == 8,
{
    assert(p.receiver_addr.ip@.len() == 16);
    assert(p.sender_addr.ip@.len() == 16);
}

/// Where the fields behind the nonce stand in their bytes.
pub proof fn lemma_tail_fields(p: VersionPayload)
    requires
        p.user_agent@.len() <= u64::MAX,
    ensures
        ({
            let tail = p.wire_tail();
            let n = p.user_agent@.len() as int;
            let width = compact_size(n as u64).len() as int;
            &&& compact_size_of(tail) == Some((n as u64, width))
            &&& tail.len() == width + n + 5
            &&& tail.subrange(width, width + n) == p.user_agent@
            &&& tail.subrange(width + n, width + n + 4) == i32_le_bytes(p.start_height)
            &&& tail[width + n + 4] != 0 <==> p.relay
        }),
{
    let tail = p.wire_tail();
    let n = p.user_agent@.len() as u64;
    let prefix = compact_size(n);
    let rest = p.user_agent@ + i32_le_bytes(p.start_height) + seq![
        if p.relay {
            1u8
        } else {
            0u8
        },
    ];
    lemma_compact_size_round_trip(n, rest);
    assert(tail =~= prefix + rest);
    assert(i32_le_bytes(p.start_height).len() == 4);
    let width = prefix.len() as int;
    assert(tail.subrange(width, width + n) =~= p.user_agent@);
    assert(tail.subrange(width + n, width + n + 4) =~= i32_le_bytes(p.start_height));
}

/// Decoding the bytes of a payload gives back the payload.
pub proof fn lemma_version_payload_round_trip(p: VersionPayload)
    requires
        p.user_agent@.len() <= u64::MAX,
    ensures
        version_payload_of(p.wire()) == Ok::<VersionPayloadView, HandshakeError>(p@),
{
    let wire = p.wire();
    let tail = p.wire_tail();
    let n = p.user_agent@.len() as int;
    let width = compact_size(n as u64).len() as int;
    let agent = AGENT_OFFSET + width;
    lemma_wire_fields(p);
    lemma_tail_fields(p);
    assert(i32_from_le(wire.subrange(0, 4)) == p.protocol_version) by {
        lemma_i32_le_round_trip(p.protocol_version);
    }
    assert(u64_from_le(wire.subrange(4, 12)) == p.services) by {
        lemma_u64_le_round_trip(p.services);
    }
    assert(i64_from_le(wire.subrange(12, 20)) == p.timestamp) by {
        lemma_i64_le_round_trip(p.timestamp);
    }
    assert(net_addr_of(wire.subrange(20, 46)) == p.receiver_addr@) by {
        lemma_net_addr_round_trip(p.receiver_addr);
    }
    assert(net_addr_of(wire.subrange(46, 72)) == p.sender_addr@) by {
        lemma_net_addr_round_trip(p.sender_addr);
    }
    assert(u64_from_le(wire.subrange(72, 80)) == p.nonce) by {
        lemma_u64_le_round_trip(p.nonce);
    }
    assert(wire.subrange(agent, agent + n) == p.user_agent@) by {
        assert(wire.subrange(agent, agent + n) =~= tail.subrange(width, width + n));
    }
    assert(i32_from_le(wire.subrange(agent + n, agent + n + 4)) == p.start_height) by {
        assert(wire.subrange(agent + n, agent + n + 4) =~= tail.subrange(
            width + n,
            width + n + 4,
        ));
        lemma_i32_le_round_trip(p.start_height);
    }
    assert((wire[agent + n + 4] != 0) == p.relay) by {
        assert(wire[agent + n + 4] == tail[width + n + 4]);
    }
    assert(wire.len() >= agent + n + 5);
}

/// The payload that opens a handshake: no services, an empty user agent, no
/// relay, and the two IPv4 endpoints of the connection, the peer's as the
/// receiver and ours as the sender.
pub open spec fn opening_payload(
    protocol_version: i32,
    timestamp: i64,
    peer_ip: Seq<u8>,
    peer_port: u16,
    local_ip: Seq<u8>,
    local_port: u16,
    nonce: u64,
    start_height: i32,
) -> Seq<u8> {
    version_head(
        protocol_version,
        0,
        timestamp,
        net_addr_wire(0, mapped_ipv4(peer_ip), peer_port),
        net_addr_wire(0, mapped_ipv4(local_ip), local_port),
    ) + u64_le_bytes(nonce) + version_tail(Seq::<u8>::empty(), start_height, false)
}

/// The version message that opens a handshake on a connection with these
/// endpoints at this time, or the reason why there is none: without a time
/// the clock has failed, and unless both endpoints are IPv4 the addresses
/// are not available.
pub open spec fn version_message_of(
    magic: Seq<u8>,
    peer: Option<Endpoint>,
    local: Option<Endpoint>,
    now: Option<i64>,
    protocol_version: i32,
    nonce: u64,
    start_height: i32,
) -> Result<Seq<u8>, HandshakeError> {
    if now is None {
        Err(HandshakeError::ClockError)
    } else {
        match (peer, local) {
            (
                Some(Endpoint::V4 { ip: peer_ip, port: peer_port }),
                Some(Endpoint::V4 { ip: local_ip, port: local_port }),
            ) => Ok(
                envelope_bytes(
                    magic,
                    VERSION_CMD@,
                    opening_payload(
                        protocol_version,
                        now->Some_0,
                        peer_ip@,
                        peer_port,
                        local_ip@,
                        local_port,
                        nonce,
                        start_height,
                    ),
                ),
            ),
            _ => Err(HandshakeError::AddressUnavailable),
        }
    }
}

/// Builds the version message that opens a handshake, ready to be written.
///
/// `peer` and `local` are the two endpoints of the connection, `None` where
/// the transport cannot tell; `now` is the current time in seconds since the
/// Unix epoch, `None` where the clock cannot be read. Fails with `ClockError`
/// without a time, and with `AddressUnavailable` unless both endpoints are
/// IPv4.
pub fn send_version_message(
    magic: &[u8; 4],
    peer: Option<Endpoint>,
    local: Option<Endpoint>,
    now: Option<i64>,
    protocol_version: i32,
    nonce: u64,
    start_height: i32,
) -> (r: Result<Vec<u8>, HandshakeError>)
    ensures
        match r {
            Ok(message) => version_message_of(
                magic@,
                peer,
                local,
                now,
                protocol_version,
                nonce,
                start_height,
            ) == Ok::<Seq<u8>, HandshakeError>(message@),
            Err(e) => version_message_of(
                magic@,
                peer,
                local,
                now,
                protocol_version,
                nonce,
                start_height,
            ) == Err::<Seq<u8>, HandshakeError>(e),
        },
{
    let timestamp: i64 = match now {
        Some(t) => t,
        None => { return Err(HandshakeError::ClockError); },
    };
    let receiver_addr: NetAddr = match peer {
        Some(Endpoint::V4 { ip, port }) => NetAddr::from_ipv4(0, ip, port),
        _ => { return Err(HandshakeError::AddressUnavailable); },
    };
    let sender_addr: NetAddr = match local {
        Some(Endpoint::V4 { ip, port }) => NetAddr::from_ipv4(0, ip, port),
        _ => { return Err(HandshakeError::AddressUnavailable); },
    };
    let payload = VersionPayload {
        protocol_version,
        services: 0,
        timestamp,
        receiver_addr,
        sender_addr,
        nonce,
        user_agent: Vec::new(),
        start_height,
        relay: false,
    };
    let payload_bytes: Vec<u8> = payload.encode();
    proof {
        lemma_wire_len(payload);
    }
    Ok(encode_envelope(magic, &VERSION_CMD, payload_bytes.as_slice()))
}

/// The nonce of a payload stands at byte 72, behind the version in the first
/// four bytes, and the payload is as long as its fields.
pub proof fn lemma_wire_len(p: VersionPayload)
    ensures
        p.wire_head().len() == NONCE_OFFSET,
        p.wire().len() == 85 + compact_size(p.user_agent@.len() as u64).len()
            + p.user_agent@.len(),
        1 <= compact_size(p.user_agent@.len() as u64).len() <= 9,
        p.wire().subrange(0, 4) == i32_le_bytes(p.protocol_version),
        p.wire().subrange(NONCE_OFFSET as int, NONCE_OFFSET + 8) == u64_le_bytes(p.nonce),
{
    lemma_wire_fields(p);
    lemma_compact_size_len(p.user_agent@.len() as u64);
    assert(p.wire_head().len() == NONCE_OFFSET) by {
        assert(u64_le_bytes(p.nonce).len() == 8);
        assert(p.wire().len() == p.wire_head().len() + 8 + p.wire_tail().len());
    }
    assert(p.wire_tail().len() == compact_size(p.user_agent@.len() as u64).len()
        + p.user_agent@.len() + 5) by {
        assert(i32_le_bytes(p.start_height).len() == 4);
    }
}

/// What `receive_version_message` makes of the bytes that were read: the
/// protocol version behind the envelope's header, unless the bytes end before
/// the version or before the nonce, or the nonce is our own.
pub open spec fn received_version(received: Seq<u8>, nonce_sent: u64) -> Result<
    i32,
    HandshakeError,
> {
    if received.len() < HEADER_LEN + 4 {
        Err(HandshakeError::InvalidVersion)
    } else if received.len() < HEADER_LEN + NONCE_OFFSET + 8 {
        Err(HandshakeError::InvalidNonce)
    } else if u64_from_le(
        received.subrange(HEADER_LEN + NONCE_OFFSET, HEADER_LEN + NONCE_OFFSET + 8),
    ) == nonce_sent {
        Err(HandshakeError::SelfConnection)
    } else {
        Ok(i32_from_le(received.subrange(HEADER_LEN as int, HEADER_LEN + 4)))
    }
}

/// Reads the peer's version message out of the bytes that arrived.
///
/// Skips the envelope's header, takes the protocol version, skips the
/// services, the timestamp and the two addresses, and takes the nonce. Fails
/// with `InvalidVersion` or `InvalidNonce` where the bytes end too early, and
/// with `SelfConnection` where the peer's nonce is `nonce_sent`.
pub fn receive_version_message(received: &[u8], nonce_sent: u64) -> (r: Result<
    i32,
    HandshakeError,
>)
    ensures
        r == received_version(received@, nonce_sent),
{
    if received.len() < HEADER_LEN + 4 {
        return Err(HandshakeError::InvalidVersion);
    }
    let version: i32 = read_i32_le(received, HEADER_LEN);
    if received.len() < HEADER_LEN + NONCE_OFFSET + 8 {
        return Err(HandshakeError::InvalidNonce);
    }
    let nonce: u64 = read_u64_le(received, HEADER_LEN + NONCE_OFFSET);
    if nonce == nonce_sent {
        return Err(HandshakeError::SelfConnection);
    }
    Ok(version)
}

/// A peer that sends back a version message with the nonce that it was sent
/// is always refused as a connection to oneself, whatever the nonce and
/// whatever else the message holds.
pub proof fn lemma_own_nonce_is_refused(magic: Seq<u8>, command: Seq<u8>, p: VersionPayload)
    requires
        magic.len() == 4,
        command.len() == 12,
    ensures
        received_version(envelope_bytes(magic, command, p.wire()), p.nonce) == Err::<
            i32,
            HandshakeError,
        >(HandshakeError::SelfConnection),
{
    let payload = p.wire();
    let bytes = envelope_bytes(magic, command, payload);
    lemma_wire_len(p);
    lemma_payload_in_envelope(magic, command, payload, NONCE_OFFSET as int, NONCE_OFFSET + 8);
    lemma_u64_le_round_trip(p.nonce);
    assert(bytes.subrange(HEADER_LEN + NONCE_OFFSET, HEADER_LEN + NONCE_OFFSET + 8)
        == u64_le_bytes(p.nonce));
}

/// A peer whose version message carries another nonce is accepted, and its
/// protocol version is what it wrote.
pub proof fn lemma_other_nonce_is_accepted(
    magic: Seq<u8>,
    command: Seq<u8>,
    p: VersionPayload,
    nonce_sent: u64,
)
    requires
        magic.len() == 4,
        command.len() == 12,
        p.nonce != nonce_sent,
    ensures
        received_version(envelope_bytes(magic, command, p.wire()), nonce_sent) == Ok::<
            i32,
            HandshakeError,
        >(p.protocol_version),
{
    let payload = p.wire();
    let bytes = envelope_bytes(magic, command, payload);
    lemma_wire_len(p);
    lemma_payload_in_envelope(magic, command, payload, NONCE_OFFSET as int, NONCE_OFFSET + 8);
    lemma_payload_in_envelope(magic, command, payload, 0, 4);
    lemma_u64_le_round_trip(p.nonce);
    lemma_i32_le_round_trip(p.protocol_version);
    assert(bytes.subrange(HEADER_LEN + NONCE_OFFSET, HEADER_LEN + NONCE_OFFSET + 8)
        == u64_le_bytes(p.nonce));
    assert(bytes.subrange(HEADER_LEN as int, HEADER_LEN + 4) == i32_le_bytes(
        p.protocol_version,
    ));
}

/// Builds the acknowledgement of the peer's version: an envelope with the
/// command `verack` and no payload.
pub fn send_verack_message(magic: &[u8; 4]) -> (message: Vec<u8>)
    ensures
        message@ == envelope_bytes(magic@, VERACK_CMD@, Seq::<u8>::empty()),
{
    let payload: Vec<u8> = Vec::new();
    encode_envelope(magic, &VERACK_CMD, payload.as_slice())
}

/// A command that counts as the peer's acknowledgement.
#[derive(Clone, Copy, Debug, PartialEq, Eq, Structural)]
pub enum AckCommand {
    /// `verack`: the acknowledgement itself.
    Verack,
    /// `sendcmpct`: some peers announce compact blocks first.
    SendCmpct,
    /// `sendheaders`: some peers announce headers first.
    SendHeaders,
}

/// The ASCII bytes of `verack`.
pub open spec fn verack_name() -> Seq<u8> {
    seq![0x76u8, 0x65u8, 0x72u8, 0x61u8, 0x63u8, 0x6bu8]
}

/// The ASCII bytes of `sendcmpct`.
pub open spec fn sendcmpct_name() -> Seq<u8> {
    seq![0x73u8, 0x65u8, 0x6eu8, 0x64u8, 0x63u8, 0x6du8, 0x70u8, 0x63u8, 0x74u8]
}

/// The ASCII bytes of `sendheaders`.
pub open spec fn sendheaders_name() -> Seq<u8> {
    seq![
        0x73u8,
        0x65u8,
        0x6eu8,
        0x64u8,
        0x68u8,
        0x65u8,
        0x61u8,
        0x64u8,
        0x65u8,
        0x72u8,
        0x73u8,
    ]
}

impl AckCommand {
    /// The ASCII bytes of the command's name.
    pub open spec fn name_bytes(self) -> Seq<u8> {
        match self {
            AckCommand::Verack => verack_name(),
            AckCommand::SendCmpct => sendcmpct_name(),
            AckCommand::SendHeaders => sendheaders_name(),
        }
    }

    /// The command with this name, if it is one of the accepted three.
    pub open spec fn of_name(name: Seq<u8>) -> Option<AckCommand> {
        if name == verack_name() {
            Some(AckCommand::Verack)
        } else if name == sendcmpct_name() {
            Some(AckCommand::SendCmpct)
        } else if name == sendheaders_name() {
            Some(AckCommand::SendHeaders)
        } else {
            None
        }
    }

    /// The command with this name, if it is one of the accepted three.
    pub fn from_name(name: &[u8]) -> (r: Option<AckCommand>)
        ensures
            r == AckCommand::of_name(name@),
    {
        let verack: [u8; 6] = [0x76, 0x65, 0x72, 0x61, 0x63, 0x6b];
        let sendcmpct: [u8; 9] = [0x73, 0x65, 0x6e, 0x64, 0x63, 0x6d, 0x70, 0x63, 0x74];
        let sendheaders: [u8; 11] = [
            0x73,
            0x65,
            0x6e,
            0x64,
            0x68,
            0x65,
            0x61,
            0x64,
            0x65,
            0x72,
            0x73,
        ];
        assert(verack@ =~= verack_name());
        assert(sendcmpct@ =~= sendcmpct_name());
        assert(sendheaders@ =~= sendheaders_name());
        if same_bytes(name, &verack) {
            Some(AckCommand::Verack)
        } else if same_bytes(name, &sendcmpct) {
            Some(AckCommand::SendCmpct)
        } else if same_bytes(name, &sendheaders) {
            Some(AckCommand::SendHeaders)
        } else {
            None
        }
    }

    /// The command's name as text.
    pub fn name(&self) -> (text: String)
        ensures
            text@ == match *self {
                AckCommand::Verack => "verack"@,
                AckCommand::SendCmpct => "sendcmpct"@,
                AckCommand::SendHeaders => "sendheaders"@,
            },
    {
        match self {
            AckCommand::Verack => String::from_str("verack"),
            AckCommand::SendCmpct => String::from_str("sendcmpct"),
            AckCommand::SendHeaders => String::from_str("sendheaders"),
        }
    }
}

/// What `receive_verack_message` makes of the bytes that were read: the
/// command named by the twelve bytes behind the first eight, if it is an
/// accepted acknowledgement.
pub open spec fn received_ack(received: Seq<u8>) -> Result<AckCommand, HandshakeError> {
    if received.len() < ACK_COMMAND_OFFSET + 12 {
        Err(HandshakeError::InvalidCommandEncoding)
    } else {
        match command_name_of(
            received.subrange(ACK_COMMAND_OFFSET as int, ACK_COMMAND_OFFSET + 12),
        ) {
            Err(e) => Err(e),
            Ok(name) => match AckCommand::of_name(name) {
                Some(command) => Ok(command),
                None => Err(HandshakeError::UnexpectedCommand),
            },
        }
    }
}

/// Reads the peer's acknowledgement out of the bytes that arrived.
pub fn parse_ack(received: &[u8]) -> (r: Result<AckCommand, HandshakeError>)
    ensures
        r == received_ack(received@),
{
    if received.len() < ACK_COMMAND_OFFSET + 12 {
        return Err(HandshakeError::InvalidCommandEncoding);
    }
    let field: &[u8] = vstd::slice::slice_subrange(
        received,
        ACK_COMMAND_OFFSET,
        ACK_COMMAND_OFFSET + 12,
    );
    match command_name(field) {
        Err(e) => Err(e),
        Ok(name) => match AckCommand::from_name(name.as_slice()) {
            Some(command) => Ok(command),
            None => Err(HandshakeError::UnexpectedCommand),
        },
    }
}

/// Reads the peer's acknowledgement out of the bytes that arrived, and
/// returns the name of its command.
///
/// Skips eight bytes and reads the next twelve as a command field. Fails with
/// `InvalidCommandEncoding` where the bytes end too early or the field holds
/// a byte that is not ASCII, with `NonNulPadding` where the name is followed
/// by anything but NUL, and with `UnexpectedCommand` where the name is none
/// of `verack`, `sendcmpct`, `sendheaders`.
pub fn receive_verack_message(received: &[u8]) -> (r: Result<String, HandshakeError>)
    ensures
        match r {
            Ok(name) => received_ack(received@) is Ok && name@ == match received_ack(
                received@,
            )->Ok_0 {
                AckCommand::Verack => "verack"@,
                AckCommand::SendCmpct => "sendcmpct"@,
                AckCommand::SendHeaders => "sendheaders"@,
            },
            Err(e) => received_ack(received@) == Err::<AckCommand, HandshakeError>(e),
        },
{
    match parse_ack(received) {
        Ok(command) => Ok(command.name()),
        Err(e) => Err(e),
    }
}

} // verus!
