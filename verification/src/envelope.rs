//! The envelope around every message of the plaintext protocol:
//! magic, command, payload length, checksum, payload.

use vstd::prelude::*;
use crate::bytes::{
    copy_range, lemma_u32_le_round_trip, push_all, push_u32_le, read_u32_le, u32_from_le,
    u32_le_bytes,
};
use crate::error::HandshakeError;
use crate::hash::{calculate_checksum, checksum_of};

verus! {

/// The magic of the main network.
pub const MAGIC_VALUE: [u8; 4] = [0xF9, 0xBE, 0xB4, 0xD9];

/// The command `version`, padded with NUL to twelve bytes.
pub const VERSION_CMD: [u8; 12] = [0x76, 0x65, 0x72, 0x73, 0x69, 0x6f, 0x6e, 0, 0, 0, 0, 0];

/// The command `verack`, padded with NUL to twelve bytes.
pub const VERACK_CMD: [u8; 12] = [0x76, 0x65, 0x72, 0x61, 0x63, 0x6b, 0, 0, 0, 0, 0, 0];

/// Bytes of an envelope before its payload: magic, command, length, checksum.
pub const HEADER_LEN: usize = 24;

/// One message of the plaintext protocol.
#[derive(Debug)]
pub struct Envelope {
    /// Identifies the network.
    pub magic: [u8; 4],
    /// ASCII name of the message, padded with NUL.
    pub command: [u8; 12],
    /// Number of bytes of the payload.
    pub length: u32,
    /// First four bytes of the double digest of the payload.
    pub checksum: [u8; 4],
    /// The message itself.
    pub payload: Vec<u8>,
}

/// An envelope as a mathematical value.
pub struct EnvelopeView {
    pub magic: Seq<u8>,
    pub command: Seq<u8>,
    pub length: u32,
    pub checksum: Seq<u8>,
    pub payload: Seq<u8>,
}

impl View for Envelope {
    type V = EnvelopeView;

    open spec fn view(&self) -> EnvelopeView {
        EnvelopeView {
            magic: self.magic@,
            command: self.command@,
            length: self.length,
            checksum: self.checksum@,
            payload: self.payload@,
        }
    }
}

impl EnvelopeView {
    /// The length field counts the payload and the checksum guards it.
    pub open spec fn well_formed(self) -> bool {
        &&& self.magic.len() == 4
        &&& self.command.len() == 12
        &&& self.length == self.payload.len()
        &&& self.checksum == checksum_of(self.payload)
    }
}

/// The bytes of the envelope around `payload`.
pub open spec fn envelope_bytes(magic: Seq<u8>, command: Seq<u8>, payload: Seq<u8>) -> Seq<u8> {
    magic + command + u32_le_bytes(payload.len() as u32) + checksum_of(payload) + payload
}

/// The payload length that the header of `bytes` announces.
pub open spec fn announced_len(bytes: Seq<u8>) -> int {
    u32_from_le(bytes.subrange(16, 20)) as int
}

/// What `bytes` decode to: the envelope at their front, or the reason why
/// there is none. Bytes after the announced payload are not looked at.
pub open spec fn decoded(bytes: Seq<u8>) -> Result<EnvelopeView, HandshakeError> {
    if bytes.len() < HEADER_LEN || bytes.len() < HEADER_LEN + announced_len(bytes) {
        Err(HandshakeError::MalformedEnvelope)
    } else {
        let payload = bytes.subrange(HEADER_LEN as int, HEADER_LEN + announced_len(bytes));
        if bytes.subrange(20, 24) != checksum_of(payload) {
            Err(HandshakeError::ChecksumMismatch)
        } else {
            Ok(
                EnvelopeView {
                    magic: bytes.subrange(0, 4),
                    command: bytes.subrange(4, 16),
                    length: announced_len(bytes) as u32,
                    checksum: bytes.subrange(20, 24),
                    payload,
                },
            )
        }
    }
}

/// Wraps `payload` in an envelope: magic, command, little-endian length,
/// checksum, payload.
pub fn encode_envelope(magic: &[u8; 4], command: &[u8; 12], payload: &[u8]) -> (out: Vec<u8>)
    requires
        payload.len() <= u32::MAX,
    ensures
        out@ == envelope_bytes(magic@, command@, payload@),
{
    let checksum: [u8; 4] = calculate_checksum(payload);
    let mut out: Vec<u8> = Vec::new();
    push_all(&mut out, magic);
    push_all(&mut out, command);
    push_u32_le(&mut out, payload.len() as u32);
    push_all(&mut out, &checksum);
    push_all(&mut out, payload);
    assert(out@ =~= envelope_bytes(magic@, command@, payload@));
    out
}

/// Reads the envelope at the front of `bytes`.
///
/// Fails with `MalformedEnvelope` when `bytes` is shorter than the header or
/// than the header and the payload it announces, and with `ChecksumMismatch`
/// when the stored checksum is not that of the payload.
pub fn decode_envelope(bytes: &[u8]) -> (r: Result<Envelope, HandshakeError>)
    ensures
        match r {
            Ok(envelope) => decoded(bytes@) == Ok::<EnvelopeView, HandshakeError>(envelope@),
            Err(e) => decoded(bytes@) == Err::<EnvelopeView, HandshakeError>(e),
        },
{
    if bytes.len() < HEADER_LEN {
        return Err(HandshakeError::MalformedEnvelope);
    }
    let length: u32 = read_u32_le(bytes, 16);
    if bytes.len() - HEADER_LEN < length as usize {
        return Err(HandshakeError::MalformedEnvelope);
    }
    let payload: Vec<u8> = copy_range(bytes, HEADER_LEN, HEADER_LEN + length as usize);
    let expected: [u8; 4] = calculate_checksum(payload.as_slice());
    let checksum: [u8; 4] = [bytes[20], bytes[21], bytes[22], bytes[23]];
    if checksum[0] != expected[0] || checksum[1] != expected[1] || checksum[2] != expected[2]
        || checksum[3] != expected[3] {
        assert(bytes@.subrange(20, 24) != checksum_of(payload@)) by {
            if bytes@.subrange(20, 24) == checksum_of(payload@) {
                assert(bytes@.subrange(20, 24)[0] == expected@[0]);
                assert(bytes@.subrange(20, 24)[1] == expected@[1]);
                assert(bytes@.subrange(20, 24)[2] == expected@[2]);
                assert(bytes@.subrange(20, 24)[3] == expected@[3]);
            }
        }
        return Err(HandshakeError::ChecksumMismatch);
    }
    let magic: [u8; 4] = [bytes[0], bytes[1], bytes[2], bytes[3]];
    let command: [u8; 12] = [
        bytes[4],
        bytes[5],
        bytes[6],
        bytes[7],
        bytes[8],
        bytes[9],
        bytes[10],
        bytes[11],
        bytes[12],
        bytes[13],
        bytes[14],
        bytes[15],
    ];
    assert(checksum@ =~= bytes@.subrange(20, 24));
    assert(checksum@ =~= expected@);
    assert(magic@ =~= bytes@.subrange(0, 4));
    assert(command@ =~= bytes@.subrange(4, 16));
    Ok(Envelope { magic, command, length, checksum, payload })
}

/// Where the name in a command field ends, looking from `at` on: at the first
/// NUL, or at the end of the field.
pub open spec fn name_end(field: Seq<u8>, at: int) -> int
    decreases field.len() - at,
{
    if at < 0 || at >= field.len() || field[at] == 0 {
        at
    } else {
        name_end(field, at + 1)
    }
}

/// Every byte is ASCII.
pub open spec fn all_ascii(field: Seq<u8>) -> bool {
    forall|i: int| 0 <= i < field.len() ==> field[i] < 0x80
}

/// Every byte from `from` on is NUL.
pub open spec fn nul_from(field: Seq<u8>, from: int) -> bool {
    forall|i: int| from <= i < field.len() ==> field[i] == 0
}

/// The name that a command field holds: its bytes before the first NUL.
/// A byte that is not ASCII makes the field unreadable; anything but NUL
/// after the name breaks the protocol.
pub open spec fn command_name_of(field: Seq<u8>) -> Result<Seq<u8>, HandshakeError> {
    if !all_ascii(field) {
        Err(HandshakeError::InvalidCommandEncoding)
    } else if !nul_from(field, name_end(field, 0)) {
        Err(HandshakeError::NonNulPadding)
    } else {
        Ok(field.subrange(0, name_end(field, 0)))
    }
}

/// The name ends inside the field, and no byte before its end is NUL.
pub proof fn lemma_name_end(field: Seq<u8>, at: int)
    requires
        0 <= at <= field.len(),
    ensures
        at <= name_end(field, at) <= field.len(),
        forall|i: int| at <= i < name_end(field, at) ==> field[i] != 0,
        name_end(field, at) < field.len() ==> field[name_end(field, at)] == 0,
    decreases field.len() - at,
{
    if at < field.len() && field[at] != 0 {
        lemma_name_end(field, at + 1);
    }
}

/// Reads the name out of a command field.
pub fn command_name(field: &[u8]) -> (r: Result<Vec<u8>, HandshakeError>)
    ensures
        match r {
            Ok(name) => command_name_of(field@) == Ok::<Seq<u8>, HandshakeError>(name@),
            Err(e) => command_name_of(field@) == Err::<Seq<u8>, HandshakeError>(e),
        },
{
    let len: usize = field.len();
    let mut i: usize = 0;
    while i < len
        invariant
            i <= len,
            len == field.len(),
            forall|j: int| 0 <= j < i ==> field@[j] < 0x80,
        decreases len - i,
    {
        if field[i] >= 0x80 {
            return Err(HandshakeError::InvalidCommandEncoding);
        }
        i += 1;
    }
    assert(all_ascii(field@));
    let mut end: usize = 0;
    while end < len && field[end] != 0
        invariant
            end <= len,
            len == field.len(),
            name_end(field@, 0) == name_end(field@, end as int),
        decreases len - end,
    {
        end += 1;
    }
    assert(name_end(field@, 0) == end);
    let mut k: usize = end;
    while k < len
        invariant
            end <= k <= len,
            len == field.len(),
            all_ascii(field@),
            name_end(field@, 0) == end,
            forall|j: int| end <= j < k ==> field@[j] == 0,
        decreases len - k,
    {
        if field[k] != 0 {
            return Err(HandshakeError::NonNulPadding);
        }
        k += 1;
    }
    Ok(copy_range(field, 0, end))
}

/// The payload of an envelope stands behind its 24-byte header, byte for
/// byte.
pub proof fn lemma_payload_in_envelope(
    magic: Seq<u8>,
    command: Seq<u8>,
    payload: Seq<u8>,
    from: int,
    to: int,
)
    requires
        magic.len() == 4,
        command.len() == 12,
        0 <= from <= to <= payload.len(),
    ensures
        envelope_bytes(magic, command, payload).len() == HEADER_LEN + payload.len(),
        envelope_bytes(magic, command, payload).subrange(HEADER_LEN + from, HEADER_LEN + to)
            == payload.subrange(from, to),
{
    let bytes = envelope_bytes(magic, command, payload);
    assert(u32_le_bytes(payload.len() as u32).len() == 4);
    assert(checksum_of(payload).len() == 4);
    assert(bytes.subrange(HEADER_LEN + from, HEADER_LEN + to) =~= payload.subrange(from, to));
}

/// Decoding what was encoded gives back the magic, the command, the length
/// of the payload, its checksum and the payload.
pub proof fn lemma_envelope_round_trip(magic: Seq<u8>, command: Seq<u8>, payload: Seq<u8>)
    requires
        magic.len() == 4,
        command.len() == 12,
        payload.len() <= u32::MAX,
    ensures
        decoded(envelope_bytes(magic, command, payload)) == Ok::<EnvelopeView, HandshakeError>(
            EnvelopeView {
                magic,
                command,
                length: payload.len() as u32,
                checksum: checksum_of(payload),
                payload,
            },
        ),
        decoded(envelope_bytes(magic, command, payload))->Ok_0.well_formed(),
{
    let bytes = envelope_bytes(magic, command, payload);
    let n = payload.len() as u32;
    lemma_u32_le_round_trip(n);
    assert(bytes.subrange(16, 20) =~= u32_le_bytes(n));
    assert(bytes.subrange(24, 24 + n) =~= payload);
    assert(bytes.subrange(20, 24) =~= checksum_of(payload));
    assert(bytes.subrange(0, 4) =~= magic);
    assert(bytes.subrange(4, 16) =~= command);
}

/// An envelope whose stored checksum is not the checksum of its payload is
/// never decoded.
pub proof fn lemma_wrong_checksum_is_rejected(
    magic: Seq<u8>,
    command: Seq<u8>,
    checksum: Seq<u8>,
    payload: Seq<u8>,
)
    requires
        magic.len() == 4,
        command.len() == 12,
        checksum.len() == 4,
        payload.len() <= u32::MAX,
        checksum != checksum_of(payload),
    ensures
        decoded(magic + command + u32_le_bytes(payload.len() as u32) + checksum + payload) == Err::<
            EnvelopeView,
            HandshakeError,
        >(HandshakeError::ChecksumMismatch),
{
    let bytes = magic + command + u32_le_bytes(payload.len() as u32) + checksum + payload;
    let n = payload.len() as u32;
    lemma_u32_le_round_trip(n);
    assert(bytes.subrange(16, 20) =~= u32_le_bytes(n));
    assert(bytes.subrange(24, 24 + n) =~= payload);
    assert(bytes.subrange(20, 24) =~= checksum);
}

} // verus!
