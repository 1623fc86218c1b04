//! The plaintext handshake as a state machine: the library decides, the
//! caller writes and reads.
//!
//! `begin` gives the first action. The caller performs each action on its
//! connection and reports what happened to `advance`, until the action is
//! `Close`.
//!
//! The bytes of one read are taken for the peer's whole reply: a reply that
//! arrives in pieces fails the handshake as a reply that is cut short does.
//! Nothing is tried twice; a caller that wants another attempt starts a new
//! handshake on a new connection.

use vstd::prelude::*;
use crate::envelope::{envelope_bytes, VERACK_CMD};
use crate::error::HandshakeError;
use crate::random::generate_nonce;
use crate::transport::{Action, ActionView, Event};
use crate::version::{
    parse_ack, receive_version_message, received_ack, received_version, send_verack_message,
    send_version_message, version_message_of, AckCommand, Endpoint,
};

verus! {

/// How far a handshake has come.
#[derive(Clone, Copy, Debug, PartialEq, Eq, Structural)]
pub enum HandshakeState {
    /// The connection stands; our version message is still to be written.
    Connected,
    /// Our version message is written.
    VersionSent,
    /// The peer's version message was read and accepted.
    VersionReceived,
    /// Our acknowledgement is written.
    VerackSent,
    /// The peer's acknowledgement was read and accepted: success.
    VerackReceived,
    /// A step failed: the end.
    Failed,
}

impl HandshakeState {
    /// Nothing follows this state.
    pub open spec fn is_terminal(self) -> bool {
        self == HandshakeState::VerackReceived || self == HandshakeState::Failed
    }

    /// The number of steps that were completed to reach this state.
    pub open spec fn steps_done(self) -> int {
        match self {
            HandshakeState::Connected => 0,
            HandshakeState::VersionSent => 1,
            HandshakeState::VersionReceived => 2,
            HandshakeState::VerackSent => 3,
            HandshakeState::VerackReceived => 4,
            HandshakeState::Failed => 0,
        }
    }
}

/// One handshake attempt on one connection.
#[derive(Clone, Copy, Debug, PartialEq, Eq)]
pub struct VersionHandshake {
    magic: [u8; 4],
    nonce: u64,
    state: HandshakeState,
    failure: Option<HandshakeError>,
    peer_version: Option<i32>,
    ack: Option<AckCommand>,
}

/// A handshake attempt as a mathematical value.
pub struct VersionHandshakeView {
    /// The magic of the network.
    pub magic: Seq<u8>,
    /// The nonce of our version message.
    pub nonce: u64,
    /// How far the handshake has come.
    pub state: HandshakeState,
    /// Why it failed, if it did.
    pub failure: Option<HandshakeError>,
    /// The protocol version of the peer, once its version message is accepted.
    pub peer_version: Option<i32>,
    /// The command that the peer acknowledged with, once accepted.
    pub ack: Option<AckCommand>,
}

impl View for VersionHandshake {
    type V = VersionHandshakeView;

    closed spec fn view(&self) -> VersionHandshakeView {
        VersionHandshakeView {
            magic: self.magic@,
            nonce: self.nonce,
            state: self.state,
            failure: self.failure,
            peer_version: self.peer_version,
            ack: self.ack,
        }
    }
}

impl VersionHandshakeView {
    /// A failure is recorded exactly in the state `Failed`, the peer's
    /// version from `VersionReceived` on, and the acknowledgement exactly at
    /// the end.
    pub open spec fn well_formed(self) -> bool {
        &&& self.magic.len() == 4
        &&& self.state == HandshakeState::Failed <==> self.failure is Some
        &&& self.state.steps_done() >= 2 ==> self.peer_version is Some
        &&& self.state == HandshakeState::VerackReceived <==> self.ack is Some
    }

    /// The handshake has ended, well or badly.
    pub open spec fn is_over(self) -> bool {
        self.state.is_terminal()
    }

    /// The handshake has ended well.
    pub open spec fn succeeded(self) -> bool {
        self.state == HandshakeState::VerackReceived
    }

    /// This handshake after a failure.
    pub open spec fn failed_with(self, e: HandshakeError) -> VersionHandshakeView {
        VersionHandshakeView {
            state: HandshakeState::Failed,
            failure: Some(e),
            ack: None,
            ..self
        }
    }

    /// This handshake one state further.
    pub open spec fn moved_to(self, state: HandshakeState) -> VersionHandshakeView {
        VersionHandshakeView { state, ..self }
    }
}

/// Where a handshake starts and what it does first: it sends our version
/// message, or it has failed because the message cannot be built.
pub open spec fn begun(
    magic: Seq<u8>,
    peer: Option<Endpoint>,
    local: Option<Endpoint>,
    now: Option<i64>,
    protocol_version: i32,
    nonce: u64,
    start_height: i32,
) -> (VersionHandshakeView, ActionView) {
    let fresh = VersionHandshakeView {
        magic,
        nonce,
        state: HandshakeState::Connected,
        failure: None,
        peer_version: None,
        ack: None,
    };
    match version_message_of(magic, peer, local, now, protocol_version, nonce, start_height) {
        Ok(message) => (fresh, ActionView::Send(message)),
        Err(e) => (fresh.failed_with(e), ActionView::Close),
    }
}

/// Where a handshake stands after an event and what it does next.
///
/// A write that succeeded moves from `Connected` to `VersionSent` and from
/// `VersionReceived` to `VerackSent`; bytes that were read move from
/// `VersionSent` to `VersionReceived` and from `VerackSent` to
/// `VerackReceived`, if they hold what the step asks for. Anything else
/// fails the handshake. Once it has ended nothing changes any more.
pub open spec fn advanced(h: VersionHandshakeView, event: Event) -> (
    VersionHandshakeView,
    ActionView,
) {
    if h.is_over() {
        (h, ActionView::Close)
    } else {
        match (h.state, event) {
            (_, Event::TimedOut) => (h.failed_with(HandshakeError::Timeout), ActionView::Close),
            (HandshakeState::Connected, Event::Written) => (
                h.moved_to(HandshakeState::VersionSent),
                ActionView::Receive,
            ),
            (HandshakeState::VersionReceived, Event::Written) => (
                h.moved_to(HandshakeState::VerackSent),
                ActionView::Receive,
            ),
            (HandshakeState::Connected, Event::WriteFailed)
            | (HandshakeState::VersionReceived, Event::WriteFailed) => (
                h.failed_with(HandshakeError::WriteFailure),
                ActionView::Close,
            ),
            (HandshakeState::VersionSent, Event::Received(bytes)) => match received_version(
                bytes@,
                h.nonce,
            ) {
                Ok(version) => (
                    VersionHandshakeView {
                        state: HandshakeState::VersionReceived,
                        peer_version: Some(version),
                        ..h
                    },
                    ActionView::Send(envelope_bytes(h.magic, VERACK_CMD@, Seq::<u8>::empty())),
                ),
                Err(e) => (h.failed_with(e), ActionView::Close),
            },
            (HandshakeState::VerackSent, Event::Received(bytes)) => match received_ack(bytes@) {
                Ok(command) => (
                    VersionHandshakeView {
                        state: HandshakeState::VerackReceived,
                        ack: Some(command),
                        ..h
                    },
                    ActionView::Close,
                ),
                Err(e) => (h.failed_with(e), ActionView::Close),
            },
            (HandshakeState::VersionSent, Event::ReadFailed)
            | (HandshakeState::VerackSent, Event::ReadFailed) => (
                h.failed_with(HandshakeError::ReadFailure),
                ActionView::Close,
            ),
            _ => (h.failed_with(HandshakeError::UnexpectedEvent), ActionView::Close),
        }
    }
}

impl VersionHandshake {
    #[verifier::type_invariant]
    spec fn consistent(self) -> bool {
        self@.well_formed()
    }

    /// How far the handshake has come.
    pub fn state(&self) -> (state: HandshakeState)
        ensures
            state == self@.state,
            self@.well_formed(),
    {
        proof {
            use_type_invariant(self);
        }
        self.state
    }

    /// Why the handshake failed, if it did.
    pub fn failure(&self) -> (failure: Option<HandshakeError>)
        ensures
            failure == self@.failure,
    {
        self.failure
    }

    /// The protocol version of the peer, once its version message is
    /// accepted.
    pub fn peer_version(&self) -> (version: Option<i32>)
        ensures
            version == self@.peer_version,
    {
        self.peer_version
    }

    /// The nonce of our version message.
    pub fn nonce(&self) -> (nonce: u64)
        ensures
            nonce == self@.nonce,
    {
        self.nonce
    }

    /// Whether the handshake has ended.
    pub fn finished(&self) -> (over: bool)
        ensures
            over == self@.is_over(),
    {
        self.state == HandshakeState::VerackReceived || self.state == HandshakeState::Failed
    }

    /// The outcome of a handshake that has ended: the command that the peer
    /// acknowledged with, or the failure. `None` while the handshake runs.
    pub fn outcome(&self) -> (r: Option<Result<AckCommand, HandshakeError>>)
        ensures
            r is Some <==> self@.is_over(),
            self@.succeeded() ==> r == Some(Ok::<AckCommand, HandshakeError>(self@.ack->Some_0)),
            self@.state == HandshakeState::Failed ==> r == Some(
                Err::<AckCommand, HandshakeError>(self@.failure->Some_0),
            ),
    {
        proof {
            use_type_invariant(self);
        }
        match (self.state, self.ack, self.failure) {
            (HandshakeState::VerackReceived, Some(command), _) => Some(Ok(command)),
            (HandshakeState::Failed, _, Some(e)) => Some(Err(e)),
            _ => None,
        }
    }

    /// The handshake after a failure.
    fn fail(self, e: HandshakeError) -> (failed: VersionHandshake)
        ensures
            failed@ == self@.failed_with(e),
    {
        proof {
            use_type_invariant(&self);
        }
        VersionHandshake {
            magic: self.magic,
            nonce: self.nonce,
            state: HandshakeState::Failed,
            failure: Some(e),
            peer_version: self.peer_version,
            ack: None,
        }
    }
}

/// Starts a handshake on a fresh connection.
///
/// The action is to send our version message, or to close where it cannot be
/// built (see `send_version_message`).
pub fn begin(
    magic: [u8; 4],
    peer: Option<Endpoint>,
    local: Option<Endpoint>,
    now: Option<i64>,
    protocol_version: i32,
    nonce: u64,
    start_height: i32,
) -> (r: (VersionHandshake, Action))
    ensures
        r.0@ == begun(magic@, peer, local, now, protocol_version, nonce, start_height).0,
        r.1@ == begun(magic@, peer, local, now, protocol_version, nonce, start_height).1,
        r.0@.well_formed(),
{
    let fresh = VersionHandshake {
        magic,
        nonce,
        state: HandshakeState::Connected,
        failure: None,
        peer_version: None,
        ack: None,
    };
    match send_version_message(&magic, peer, local, now, protocol_version, nonce, start_height) {
        Ok(message) => (fresh, Action::Send(message)),
        Err(e) => (fresh.fail(e), Action::Close),
    }
}

/// Starts a handshake on a fresh connection with a nonce drawn for it.
///
/// What follows is what `begin` gives for the nonce that was drawn, which
/// the handshake keeps.
pub fn begin_with_fresh_nonce(
    magic: [u8; 4],
    peer: Option<Endpoint>,
    local: Option<Endpoint>,
    now: Option<i64>,
    protocol_version: i32,
    start_height: i32,
) -> (r: (VersionHandshake, Action))
    ensures
        r.0@ == begun(magic@, peer, local, now, protocol_version, r.0@.nonce, start_height).0,
        r.1@ == begun(magic@, peer, local, now, protocol_version, r.0@.nonce, start_height).1,
        r.0@.well_formed(),
{
    let nonce: u64 = generate_nonce();
    begin(magic, peer, local, now, protocol_version, nonce, start_height)
}

/// Takes the handshake one event further and says what to do next.
pub fn advance(h: VersionHandshake, event: Event) -> (r: (VersionHandshake, Action))
    ensures
        r.0@ == advanced(h@, event).0,
        r.1@ == advanced(h@, event).1,
        r.0@.well_formed(),
{
    proof {
        use_type_invariant(&h);
    }
    if h.finished() {
        return (h, Action::Close);
    }
    match event {
        Event::TimedOut => (h.fail(HandshakeError::Timeout), Action::Close),
        Event::Written => match h.state {
            HandshakeState::Connected => (
                VersionHandshake {
                    magic: h.magic,
                    nonce: h.nonce,
                    state: HandshakeState::VersionSent,
                    failure: h.failure,
                    peer_version: h.peer_version,
                    ack: h.ack,
                },
                Action::Receive,
            ),
            HandshakeState::VersionReceived => (
                VersionHandshake {
                    magic: h.magic,
                    nonce: h.nonce,
                    state: HandshakeState::VerackSent,
                    failure: h.failure,
                    peer_version: h.peer_version,
                    ack: h.ack,
                },
                Action::Receive,
            ),
            _ => (h.fail(HandshakeError::UnexpectedEvent), Action::Close),
        },
        Event::WriteFailed => match h.state {
            HandshakeState::Connected | HandshakeState::VersionReceived => (
                h.fail(HandshakeError::WriteFailure),
                Action::Close,
            ),
            _ => (h.fail(HandshakeError::UnexpectedEvent), Action::Close),
        },
        Event::ReadFailed => match h.state {
            HandshakeState::VersionSent | HandshakeState::VerackSent => (
                h.fail(HandshakeError::ReadFailure),
                Action::Close,
            ),
            _ => (h.fail(HandshakeError::UnexpectedEvent), Action::Close),
        },
        Event::Received(bytes) => match h.state {
            HandshakeState::VersionSent => match receive_version_message(
                bytes.as_slice(),
                h.nonce,
            ) {
                Ok(version) => (
                    VersionHandshake {
                        magic: h.magic,
                        nonce: h.nonce,
                        state: HandshakeState::VersionReceived,
                        failure: h.failure,
                        peer_version: Some(version),
                        ack: h.ack,
                    },
                    Action::Send(send_verack_message(&h.magic)),
                ),
                Err(e) => (h.fail(e), Action::Close),
            },
            HandshakeState::VerackSent => match parse_ack(bytes.as_slice()) {
                Ok(command) => (
                    VersionHandshake {
                        magic: h.magic,
                        nonce: h.nonce,
                        state: HandshakeState::VerackReceived,
                        failure: h.failure,
                        peer_version: h.peer_version,
                        ack: Some(command),
                    },
                    Action::Close,
                ),
                Err(e) => (h.fail(e), Action::Close),
            },
            _ => (h.fail(HandshakeError::UnexpectedEvent), Action::Close),
        },
    }
}

/// A handshake that has ended stays as it is, and the only thing left to do
/// is to close.
pub proof fn lemma_the_end_is_final(h: VersionHandshakeView, event: Event)
    requires
        h.is_over(),
    ensures
        advanced(h, event) == (h, ActionView::Close),
{
}

/// Every event takes a running handshake exactly one step further or fails
/// it: success is reached only through all four steps, in order.
pub proof fn lemma_one_step_at_a_time(h: VersionHandshakeView, event: Event)
    requires
        !h.is_over(),
    ensures
        advanced(h, event).0.state == HandshakeState::Failed || advanced(
            h,
            event,
        ).0.state.steps_done() == h.state.steps_done() + 1,
        advanced(h, event).0.succeeded() ==> h.state == HandshakeState::VerackSent,
{
}

/// A failure always ends in `Close`, and bytes are handed out for writing
/// only by a step that succeeded.
pub proof fn lemma_failure_closes(h: VersionHandshakeView, event: Event)
    ensures
        advanced(h, event).0.state == HandshakeState::Failed ==> advanced(h, event).1
            == ActionView::Close,
        advanced(h, event).1 is Send ==> h.state == HandshakeState::VersionSent && advanced(
            h,
            event,
        ).0.state == HandshakeState::VersionReceived,
{
}

/// A peer that echoes our nonce fails the handshake at the version step with
/// `SelfConnection`, and no acknowledgement is sent.
pub proof fn lemma_echoed_nonce_ends_the_handshake(h: VersionHandshakeView, bytes: Vec<u8>)
    requires
        h.state == HandshakeState::VersionSent,
        received_version(bytes@, h.nonce) == Err::<i32, HandshakeError>(
            HandshakeError::SelfConnection,
        ),
    ensures
        advanced(h, Event::Received(bytes)).0 == h.failed_with(HandshakeError::SelfConnection),
        advanced(h, Event::Received(bytes)).1 == ActionView::Close,
{
}

/// A peer that answers our version message with a version message of
/// another nonce, and our acknowledgement with an accepted command, takes
/// the handshake from the start to success.
pub proof fn lemma_honest_peer_succeeds(
    h: VersionHandshakeView,
    version_reply: Vec<u8>,
    ack_reply: Vec<u8>,
)
    requires
        h.state == HandshakeState::Connected,
        received_version(version_reply@, h.nonce) is Ok,
        received_ack(ack_reply@) is Ok,
    ensures
        ({
            let sent = advanced(h, Event::Written).0;
            let received = advanced(sent, Event::Received(version_reply)).0;
            let acknowledged = advanced(received, Event::Written).0;
            let done = advanced(acknowledged, Event::Received(ack_reply));
            &&& done.0.succeeded()
            &&& done.0.peer_version == Some(received_version(version_reply@, h.nonce)->Ok_0)
            &&& done.0.ack == Some(received_ack(ack_reply@)->Ok_0)
            &&& done.1 == ActionView::Close
        }),
{
}

} // verus!
