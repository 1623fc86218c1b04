//! Failures of a handshake and the families they belong to.

use vstd::prelude::*;

verus! {

/// The family of a failure. Every failure ends the handshake.
#[derive(Clone, Copy, Debug, PartialEq, Eq, Structural)]
pub enum ErrorClass {
    /// The connection could not be used: connect, read, write, clock.
    Transport,
    /// Bytes arrived that are not a well-formed message.
    MalformedMessage,
    /// A well-formed message that the protocol forbids at this point.
    ProtocolViolation,
    /// A key, a ciphertext or a derivation was rejected.
    CryptoFailure,
    /// The peer said goodbye.
    PeerDisconnected,
}

/// Why a handshake, or one step of it, failed.
#[derive(Clone, Copy, Debug, PartialEq, Eq, Structural)]
pub enum HandshakeError {
    /// The connection could not be opened.
    ConnectFailure,
    /// Reading from the connection failed.
    ReadFailure,
    /// Writing to the connection failed.
    WriteFailure,
    /// The peer did not answer within the caller's bound.
    Timeout,
    /// The connection has no IPv4 endpoint on one of its two sides.
    AddressUnavailable,
    /// The current time could not be read.
    ClockError,
    /// The driver reported an event that the handshake was not waiting for.
    UnexpectedEvent,
    /// Fewer bytes than the integer needs.
    TruncatedInput,
    /// Fewer bytes than the envelope's header and the payload it announces.
    MalformedEnvelope,
    /// The stored checksum is not the checksum of the payload.
    ChecksumMismatch,
    /// Too few bytes where the protocol version stands.
    InvalidVersion,
    /// Too few bytes where the nonce stands.
    InvalidNonce,
    /// The command field is cut short or holds a byte that is not ASCII.
    InvalidCommandEncoding,
    /// The structured encoding of a message could not be read.
    InvalidStructuredEncoding,
    /// A message is longer than its length field can say.
    MessageTooLong,
    /// Fewer bytes than the smallest frame.
    FrameTooShort,
    /// The header tag or the body tag of a frame does not verify.
    MacMismatch,
    /// The peer echoed our own nonce: we are talking to ourselves.
    SelfConnection,
    /// The peer acknowledged with a command outside the accepted set.
    UnexpectedCommand,
    /// A command name is followed by something other than NUL bytes.
    NonNulPadding,
    /// The bytes are not a point on the curve.
    InvalidPublicKey,
    /// A ciphertext is malformed or its tag does not verify.
    DecryptionFailure,
    /// An input of the key derivation is missing.
    DerivationFailure,
    /// The peer sent a disconnect message with this reason code.
    PeerDisconnected { reason: usize },
}

impl HandshakeError {
    /// The family of this failure.
    pub open spec fn class_of(self) -> ErrorClass {
        match self {
            HandshakeError::ConnectFailure
            | HandshakeError::ReadFailure
            | HandshakeError::WriteFailure
            | HandshakeError::Timeout
            | HandshakeError::AddressUnavailable
            | HandshakeError::ClockError
            | HandshakeError::UnexpectedEvent => ErrorClass::Transport,
            HandshakeError::TruncatedInput
            | HandshakeError::MalformedEnvelope
            | HandshakeError::ChecksumMismatch
            | HandshakeError::InvalidVersion
            | HandshakeError::InvalidNonce
            | HandshakeError::InvalidCommandEncoding
            | HandshakeError::InvalidStructuredEncoding
            | HandshakeError::MessageTooLong
            | HandshakeError::FrameTooShort
            | HandshakeError::MacMismatch => ErrorClass::MalformedMessage,
            HandshakeError::SelfConnection
            | HandshakeError::UnexpectedCommand
            | HandshakeError::NonNulPadding => ErrorClass::ProtocolViolation,
            HandshakeError::InvalidPublicKey
            | HandshakeError::DecryptionFailure
            | HandshakeError::DerivationFailure => ErrorClass::CryptoFailure,
            HandshakeError::PeerDisconnected { .. } => ErrorClass::PeerDisconnected,
        }
    }

    /// The family of this failure.
    pub fn class(&self) -> (c: ErrorClass)
        ensures
            c == self.class_of(),
    {
        match self {
            HandshakeError::ConnectFailure
            | HandshakeError::ReadFailure
            | HandshakeError::WriteFailure
            | HandshakeError::Timeout
            | HandshakeError::AddressUnavailable
            | HandshakeError::ClockError
            | HandshakeError::UnexpectedEvent => ErrorClass::Transport,
            HandshakeError::TruncatedInput
            | HandshakeError::MalformedEnvelope
            | HandshakeError::ChecksumMismatch
            | HandshakeError::InvalidVersion
            | HandshakeError::InvalidNonce
            | HandshakeError::InvalidCommandEncoding
            | HandshakeError::InvalidStructuredEncoding
            | HandshakeError::MessageTooLong
            | HandshakeError::FrameTooShort
            | HandshakeError::MacMismatch => ErrorClass::MalformedMessage,
            HandshakeError::SelfConnection
            | HandshakeError::UnexpectedCommand
            | HandshakeError::NonNulPadding => ErrorClass::ProtocolViolation,
            HandshakeError::InvalidPublicKey
            | HandshakeError::DecryptionFailure
            | HandshakeError::DerivationFailure => ErrorClass::CryptoFailure,
            HandshakeError::PeerDisconnected { .. } => ErrorClass::PeerDisconnected,
        }
    }
}

} // verus!
