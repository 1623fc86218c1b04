//! The encrypted handshake as a state machine, on the initiator's side: the
//! library decides, the caller writes and reads.
//!
//! `perform_eth_handshake` gives the first action. The caller performs each
//! action on its connection and reports what happened to `advance`, until the
//! action is `Close`.
//!
//! The bytes of one read are taken for the peer's whole reply, and may hold
//! the peer's first frame behind its acknowledgement. Nothing is tried twice;
//! keys, nonce and secrets belong to one attempt and end with it.

use vstd::prelude::*;
use crate::auth::{ack_of, build_auth_message, is_auth_message, may_not_fit, read_ack};
use crate::bytes::copy_range;
use crate::ecies::{announced_size, decrypt_response, opened, sealed_len, SIZE_PREFIX_LEN};
use crate::error::HandshakeError;
use crate::hello::{
    decode_hello_message_frame, disconnect_of, frame_decoded, hello_wire, Capability,
    HelloMessage, HelloView, HELLO_ID,
};
use crate::keys::{
    generate_ephemeral_keypair, node_id_of, parse_node_id, public_point_of, shared_x,
    uncompressed, PublicKey, SecretKey,
};
use crate::rlp_items::single_byte_value;
use crate::session::{
    derivable, derive_secrets, derived, encrypt_frame, frame_opened, frame_written, open_frame,
    Role, SessionSecrets, SessionView,
};
use crate::transport::{Action, ActionView, Event};

verus! {

/// The version of the transport protocol that our hello announces.
pub const PROTOCOL_VERSION: usize = 5;

/// How far an encrypted handshake has come.
#[derive(Clone, Copy, Debug, PartialEq, Eq, Structural)]
pub enum EncryptedState {
    /// The connection stands; our authentication is still to be written.
    Connected,
    /// Our authentication is written.
    AuthSent,
    /// The acknowledgement was opened and the secrets are derived; our hello
    /// is still to be written.
    SecretsDerived,
    /// Our hello is written.
    HelloSent,
    /// The peer's hello was read: success.
    Established,
    /// A step failed: the end.
    Failed,
}

impl EncryptedState {
    /// Nothing follows this state.
    pub open spec fn is_terminal(self) -> bool {
        self == EncryptedState::Established || self == EncryptedState::Failed
    }

    /// The number of steps that were completed to reach this state.
    pub open spec fn steps_done(self) -> int {
        match self {
            EncryptedState::Connected => 0,
            EncryptedState::AuthSent => 1,
            EncryptedState::SecretsDerived => 2,
            EncryptedState::HelloSent => 3,
            EncryptedState::Established => 4,
            EncryptedState::Failed => 0,
        }
    }
}

/// What an attempt is made with, from its start to its end.
#[derive(Debug)]
struct Attempt {
    local: SecretKey,
    ephemeral: SecretKey,
    nonce: [u8; 32],
    auth: Vec<u8>,
    hello: Vec<u8>,
}

/// One attempt at an encrypted handshake on one connection.
#[derive(Debug)]
pub struct EncryptedHandshake {
    attempt: Attempt,
    state: EncryptedState,
    failure: Option<HandshakeError>,
    session: Option<SessionSecrets>,
    pending: Vec<u8>,
    peer_hello: Option<HelloMessage>,
}

/// An encrypted handshake as a mathematical value.
pub struct EncryptedView {
    /// How far the handshake has come.
    pub state: EncryptedState,
    /// Why it failed, if it did.
    pub failure: Option<HandshakeError>,
    /// Our long-term secret key.
    pub local: Seq<u8>,
    /// Our secret key for this attempt.
    pub ephemeral: Seq<u8>,
    /// Our nonce for this attempt.
    pub nonce: Seq<u8>,
    /// Our authentication as it travels.
    pub auth: Seq<u8>,
    /// Our hello, encoded.
    pub hello: Seq<u8>,
    /// The secrets of the session, from the acknowledgement on.
    pub session: Option<SessionView>,
    /// Bytes that arrived behind the acknowledgement.
    pub pending: Seq<u8>,
    /// The peer's hello, once it was read.
    pub peer_hello: Option<HelloView>,
}

/// The view of a session that may not be there yet.
pub open spec fn session_view(session: Option<SessionSecrets>) -> Option<SessionView> {
    match session {
        Some(session) => Some(session@),
        None => None,
    }
}

/// The view of a hello that may not be there yet.
pub open spec fn hello_view(hello: Option<HelloMessage>) -> Option<HelloView> {
    match hello {
        Some(hello) => Some(hello@),
        None => None,
    }
}

impl Attempt {
    /// The handshake in `state` with this attempt's keys and messages.
    spec fn at(
        self,
        state: EncryptedState,
        failure: Option<HandshakeError>,
        session: Option<SessionView>,
        pending: Seq<u8>,
        peer_hello: Option<HelloView>,
    ) -> EncryptedView {
        EncryptedView {
            state,
            failure,
            local: self.local@,
            ephemeral: self.ephemeral@,
            nonce: self.nonce@,
            auth: self.auth@,
            hello: self.hello@,
            session,
            pending,
            peer_hello,
        }
    }
}

impl View for EncryptedHandshake {
    type V = EncryptedView;

    closed spec fn view(&self) -> EncryptedView {
        self.attempt.at(
            self.state,
            self.failure,
            session_view(self.session),
            self.pending@,
            hello_view(self.peer_hello),
        )
    }
}

impl EncryptedView {
    /// A failure is recorded exactly in the state `Failed`, the secrets are
    /// there while a hello is to be written or awaited, and the peer's hello
    /// exactly at the end.
    pub open spec fn well_formed(self) -> bool {
        &&& self.state == EncryptedState::Failed <==> self.failure is Some
        &&& self.state == EncryptedState::SecretsDerived || self.state
            == EncryptedState::HelloSent ==> self.session is Some
        &&& self.state == EncryptedState::Established <==> self.peer_hello is Some
    }

    /// The handshake has ended, well or badly.
    pub open spec fn is_over(self) -> bool {
        self.state.is_terminal()
    }

    /// This handshake after a failure: the secrets are dropped with it.
    pub open spec fn failed_with(self, e: HandshakeError) -> EncryptedView {
        EncryptedView {
            state: EncryptedState::Failed,
            failure: Some(e),
            session: None,
            pending: Seq::<u8>::empty(),
            peer_hello: None,
            ..self
        }
    }

    /// This handshake one state further.
    pub open spec fn moved_to(self, state: EncryptedState) -> EncryptedView {
        EncryptedView { state, ..self }
    }
}

/// What follows the bytes that answered our authentication.
///
/// The acknowledgement at their front is opened with our long-term key and
/// read; the secrets are derived from what our one-time key shares with the
/// peer's, the two nonces and the two messages as they travelled; and our
/// hello is put in the first frame. Bytes behind the acknowledgement are
/// kept. Each of these steps can fail, and reading nothing is a failure too.
pub open spec fn after_ack(h: EncryptedView, bytes: Seq<u8>) -> (EncryptedView, ActionView) {
    if bytes.len() == 0 {
        (h.failed_with(HandshakeError::ReadFailure), ActionView::Close)
    } else {
        match opened(h.local, bytes) {
            None => (h.failed_with(HandshakeError::DecryptionFailure), ActionView::Close),
            Some(plaintext) => match ack_of(plaintext) {
                Err(e) => (h.failed_with(e), ActionView::Close),
                Ok((key, nonce)) => {
                    let end = SIZE_PREFIX_LEN + announced_size(bytes);
                    let shared = shared_x(uncompressed(key), h.ephemeral);
                    let ack = bytes.subrange(0, end);
                    let session = derived(Role::Initiator, shared, h.nonce, nonce, h.auth, ack);
                    if !derivable(shared, h.nonce, nonce, h.auth, ack) {
                        (h.failed_with(HandshakeError::DerivationFailure), ActionView::Close)
                    } else {
                        match frame_written(session, HELLO_ID, h.hello) {
                            Err(e) => (h.failed_with(e), ActionView::Close),
                            Ok((frame, after)) => (
                                EncryptedView {
                                    state: EncryptedState::SecretsDerived,
                                    session: Some(after),
                                    pending: bytes.skip(end),
                                    ..h
                                },
                                ActionView::Send(frame),
                            ),
                        }
                    }
                },
            },
        }
    }
}

/// What follows the bytes that hold the peer's first frame.
///
/// The frame is opened under the session's secrets and decoded. Only a hello
/// ends the handshake well; a disconnect ends it with the peer's reason.
pub open spec fn after_frame(h: EncryptedView, bytes: Seq<u8>) -> (EncryptedView, ActionView)
    recommends
        h.session is Some,
{
    match frame_opened(h.session->Some_0, bytes) {
        Err(e) => (h.failed_with(e), ActionView::Close),
        Ok((data, after)) => match frame_decoded(data) {
            Err(e) => (h.failed_with(e), ActionView::Close),
            Ok(hello) => (
                EncryptedView {
                    state: EncryptedState::Established,
                    session: Some(after),
                    pending: Seq::<u8>::empty(),
                    peer_hello: Some(hello),
                    ..h
                },
                ActionView::Close,
            ),
        },
    }
}

/// Where a handshake stands after an event and what it does next.
///
/// A write that succeeded moves from `Connected` to `AuthSent`, and from
/// `SecretsDerived` to `HelloSent`, or, where the peer's frame has already
/// arrived behind the acknowledgement, straight to the end. Bytes that were
/// read are the acknowledgement in `AuthSent` and the peer's frame in
/// `HelloSent`. Anything else fails the handshake. Once it has ended nothing
/// changes any more.
pub open spec fn advanced(h: EncryptedView, event: Event) -> (EncryptedView, ActionView) {
    if h.is_over() {
        (h, ActionView::Close)
    } else {
        match (h.state, event) {
            (_, Event::TimedOut) => (h.failed_with(HandshakeError::Timeout), ActionView::Close),
            (EncryptedState::Connected, Event::Written) => (
                h.moved_to(EncryptedState::AuthSent),
                ActionView::Receive,
            ),
            (EncryptedState::SecretsDerived, Event::Written) => if h.pending.len() > 0 {
                after_frame(h, h.pending)
            } else {
                (h.moved_to(EncryptedState::HelloSent), ActionView::Receive)
            },
            (EncryptedState::Connected, Event::WriteFailed)
            | (EncryptedState::SecretsDerived, Event::WriteFailed) => (
                h.failed_with(HandshakeError::WriteFailure),
                ActionView::Close,
            ),
            (EncryptedState::AuthSent, Event::Received(bytes)) => after_ack(h, bytes@),
            (EncryptedState::HelloSent, Event::Received(bytes)) => if bytes@.len() == 0 {
                (h.failed_with(HandshakeError::ReadFailure), ActionView::Close)
            } else {
                after_frame(h, bytes@)
            },
            (EncryptedState::AuthSent, Event::ReadFailed)
            | (EncryptedState::HelloSent, Event::ReadFailed) => (
                h.failed_with(HandshakeError::ReadFailure),
                ActionView::Close,
            ),
            _ => (h.failed_with(HandshakeError::UnexpectedEvent), ActionView::Close),
        }
    }
}

/// The handshake after a failure.
fn fail(attempt: Attempt, e: HandshakeError) -> (r: (EncryptedHandshake, Action))
    ensures
        r.0@ == attempt.at(
            EncryptedState::Failed,
            Some(e),
            None,
            Seq::<u8>::empty(),
            None,
        ),
        r.1@ == ActionView::Close,
{
    (
        EncryptedHandshake {
            attempt,
            state: EncryptedState::Failed,
            failure: Some(e),
            session: None,
            pending: Vec::new(),
            peer_hello: None,
        },
        Action::Close,
    )
}

/// Handles the bytes that answered our authentication.
fn on_ack(h: EncryptedHandshake, bytes: &[u8]) -> (r: (EncryptedHandshake, Action))
    requires
        h@.state == EncryptedState::AuthSent,
    ensures
        r.0@ == after_ack(h@, bytes@).0,
        r.1@ == after_ack(h@, bytes@).1,
{
    proof {
        use_type_invariant(&h);
    }
    let EncryptedHandshake { attempt, state, failure, session, pending, peer_hello } = h;
    if bytes.len() == 0 {
        return fail(attempt, HandshakeError::ReadFailure);
    }
    let plaintext: Vec<u8> = match decrypt_response(&attempt.local, bytes) {
        Ok(plaintext) => plaintext,
        Err(e) => { return fail(attempt, e); },
    };
    let ack = match read_ack(plaintext.as_slice()) {
        Ok(ack) => ack,
        Err(e) => { return fail(attempt, e); },
    };
    let end: usize = match sealed_len(bytes) {
        Some(end) => end,
        None => { return fail(attempt, HandshakeError::DecryptionFailure); },
    };
    let shared: [u8; 32] = attempt.ephemeral.shared_secret(&ack.remote_ephemeral);
    let ack_message: &[u8] = vstd::slice::slice_subrange(bytes, 0, end);
    let mut fresh: SessionSecrets = match derive_secrets(
        Role::Initiator,
        &shared,
        &attempt.nonce,
        &ack.remote_nonce,
        attempt.auth.as_slice(),
        ack_message,
    ) {
        Ok(fresh) => fresh,
        Err(e) => { return fail(attempt, e); },
    };
    let frame: Vec<u8> = match encrypt_frame(&mut fresh, HELLO_ID, attempt.hello.as_slice()) {
        Ok(frame) => frame,
        Err(e) => { return fail(attempt, e); },
    };
    let rest: Vec<u8> = copy_range(bytes, end, bytes.len());
    assert(rest@ =~= bytes@.skip(end as int));
    (
        EncryptedHandshake {
            attempt,
            state: EncryptedState::SecretsDerived,
            failure,
            session: Some(fresh),
            pending: rest,
            peer_hello,
        },
        Action::Send(frame),
    )
}

/// Handles the bytes that hold the peer's first frame.
fn on_frame(h: EncryptedHandshake, bytes: &[u8]) -> (r: (EncryptedHandshake, Action))
    requires
        h@.state == EncryptedState::SecretsDerived || h@.state == EncryptedState::HelloSent,
    ensures
        r.0@ == after_frame(h@, bytes@).0,
        r.1@ == after_frame(h@, bytes@).1,
{
    proof {
        use_type_invariant(&h);
    }
    let EncryptedHandshake { attempt, state, failure, session, pending, peer_hello } = h;
    let mut session: SessionSecrets = match session {
        Some(session) => session,
        None => { return fail(attempt, HandshakeError::UnexpectedEvent); },
    };
    let data: Vec<u8> = match open_frame(&mut session, bytes) {
        Ok(data) => data,
        Err(e) => { return fail(attempt, e); },
    };
    match decode_hello_message_frame(data) {
        Ok(hello) => (
            EncryptedHandshake {
                attempt,
                state: EncryptedState::Established,
                failure,
                session: Some(session),
                pending: Vec::new(),
                peer_hello: Some(hello),
            },
            Action::Close,
        ),
        Err(e) => fail(attempt, e),
    }
}

impl EncryptedHandshake {
    #[verifier::type_invariant]
    spec fn consistent(self) -> bool {
        self@.well_formed()
    }

    /// How far the handshake has come.
    pub fn state(&self) -> (state: EncryptedState)
        ensures
            state == self@.state,
            self@.well_formed(),
    {
        proof {
            use_type_invariant(self);
        }
        self.state
    }

    /// Why the handshake failed, if it did.
    pub fn failure(&self) -> (failure: Option<HandshakeError>)
        ensures
            failure == self@.failure,
    {
        self.failure
    }

    /// Our authentication as it travels.
    pub fn auth(&self) -> (auth: &[u8])
        ensures
            auth@ == self@.auth,
    {
        self.attempt.auth.as_slice()
    }

    /// Our nonce for this attempt.
    pub fn nonce(&self) -> (nonce: [u8; 32])
        ensures
            nonce@ == self@.nonce,
    {
        self.attempt.nonce
    }

    /// The public key that belongs to our long-term key.
    pub fn local_public(&self) -> (public: PublicKey)
        ensures
            uncompressed(public@) == public_point_of(self@.local),
    {
        self.attempt.local.public_key()
    }

    /// Bytes that arrived behind the acknowledgement and wait for our hello
    /// to be written.
    pub fn pending(&self) -> (pending: &[u8])
        ensures
            pending@ == self@.pending,
    {
        self.pending.as_slice()
    }

    /// The peer's hello, once the handshake has ended well.
    pub fn peer_hello(&self) -> (hello: Option<&HelloMessage>)
        ensures
            hello is Some <==> self@.state == EncryptedState::Established,
            hello is Some ==> Some(hello->Some_0@) == self@.peer_hello,
    {
        proof {
            use_type_invariant(self);
        }
        match &self.peer_hello {
            Some(hello) => Some(hello),
            None => None,
        }
    }

    /// Whether the handshake has ended.
    pub fn finished(&self) -> (over: bool)
        ensures
            over == self@.is_over(),
    {
        self.state == EncryptedState::Established || self.state == EncryptedState::Failed
    }

    /// Ends the attempt and hands over the peer's hello, if the handshake
    /// has ended well.
    pub fn into_peer_hello(self) -> (hello: Option<HelloMessage>)
        ensures
            hello is Some <==> self@.state == EncryptedState::Established,
            hello_view(hello) == self@.peer_hello,
    {
        proof {
            use_type_invariant(&self);
        }
        self.peer_hello
    }

    /// Ends the attempt and hands over the secrets of the session, if there
    /// are any: after a failure there are none.
    pub fn into_session(self) -> (session: Option<SessionSecrets>)
        ensures
            session_view(session) == self@.session,
    {
        self.session
    }
}

/// Takes the handshake one event further and says what to do next.
pub fn advance(h: EncryptedHandshake, event: Event) -> (r: (EncryptedHandshake, Action))
    ensures
        r.0@ == advanced(h@, event).0,
        r.1@ == advanced(h@, event).1,
        r.0@.well_formed(),
{
    proof {
        use_type_invariant(&h);
    }
    if h.finished() {
        return (h, Action::Close);
    }
    match event {
        Event::TimedOut => fail(h.attempt, HandshakeError::Timeout),
        Event::Written => match h.state {
            EncryptedState::Connected => (
                EncryptedHandshake {
                    attempt: h.attempt,
                    state: EncryptedState::AuthSent,
                    failure: h.failure,
                    session: h.session,
                    pending: h.pending,
                    peer_hello: h.peer_hello,
                },
                Action::Receive,
            ),
            EncryptedState::SecretsDerived => if h.pending.len() > 0 {
                let bytes: Vec<u8> = copy_range(h.pending.as_slice(), 0, h.pending.len());
                assert(bytes@ =~= h.pending@);
                on_frame(h, bytes.as_slice())
            } else {
                (
                    EncryptedHandshake {
                        attempt: h.attempt,
                        state: EncryptedState::HelloSent,
                        failure: h.failure,
                        session: h.session,
                        pending: h.pending,
                        peer_hello: h.peer_hello,
                    },
                    Action::Receive,
                )
            },
            _ => fail(h.attempt, HandshakeError::UnexpectedEvent),
        },
        Event::WriteFailed => match h.state {
            EncryptedState::Connected | EncryptedState::SecretsDerived => fail(
                h.attempt,
                HandshakeError::WriteFailure,
            ),
            _ => fail(h.attempt, HandshakeError::UnexpectedEvent),
        },
        Event::ReadFailed => match h.state {
            EncryptedState::AuthSent | EncryptedState::HelloSent => fail(
                h.attempt,
                HandshakeError::ReadFailure,
            ),
            _ => fail(h.attempt, HandshakeError::UnexpectedEvent),
        },
        Event::Received(bytes) => match h.state {
            EncryptedState::AuthSent => on_ack(h, bytes.as_slice()),
            EncryptedState::HelloSent => if bytes.len() == 0 {
                fail(h.attempt, HandshakeError::ReadFailure)
            } else {
                on_frame(h, bytes.as_slice())
            },
            _ => fail(h.attempt, HandshakeError::UnexpectedEvent),
        },
    }
}

/// Starts an encrypted handshake with the node whose identifier is
/// `node_public_key`: 128 hexadecimal digits.
///
/// Draws a long-term key, a one-time key and a nonce for this attempt,
/// builds the authentication and prepares our hello, with the given client
/// version, capabilities and port. The first action is to send the
/// authentication. Fails with `InvalidPublicKey` where the identifier is no
/// public key, and with `MessageTooLong` where the authentication does not
/// fit its length field.
pub fn perform_eth_handshake(
    node_public_key: &str,
    client_version: String,
    capabilities: Vec<Capability>,
    port: u16,
) -> (r: Result<(EncryptedHandshake, Action), HandshakeError>)
    ensures
        match r {
            Ok((h, action)) => {
                &&& node_id_of(node_public_key@) is Some
                &&& h@.state == EncryptedState::Connected
                &&& h@.failure is None
                &&& h@.session is None
                &&& h@.peer_hello is None
                &&& h@.pending.len() == 0
                &&& h@.well_formed()
                &&& action@ == ActionView::Send(h@.auth)
                &&& is_auth_message(
                    h@.local,
                    node_id_of(node_public_key@)->Some_0,
                    h@.ephemeral,
                    h@.nonce,
                    h@.auth,
                )
                &&& h@.hello == hello_wire(
                    PROTOCOL_VERSION,
                    client_version@,
                    capabilities@,
                    port,
                    public_point_of(h@.local).skip(1),
                )
            },
            Err(e) => match node_id_of(node_public_key@) {
                None => e == HandshakeError::InvalidPublicKey,
                Some(remote) => e == HandshakeError::MessageTooLong && exists|local: Seq<u8>|
                    may_not_fit(local, remote),
            },
        },
{
    let (local, id) = generate_ephemeral_keypair();
    let remote = match parse_node_id(node_public_key) {
        Ok(remote) => remote,
        Err(e) => { return Err(e); },
    };
    let auth = match build_auth_message(&local, &remote) {
        Ok(auth) => auth,
        Err(e) => {
            assert(may_not_fit(local@, remote@));
            return Err(e);
        },
    };
    proof {
        assert(uncompressed(id@).skip(1) =~= id@);
    }
    let hello: Vec<u8> = HelloMessage {
        protocol_version: PROTOCOL_VERSION,
        client_version,
        capabilities,
        port,
        id,
    }.encode();
    let first: Vec<u8> = copy_range(auth.ciphertext.as_slice(), 0, auth.ciphertext.len());
    assert(first@ =~= auth.ciphertext@);
    Ok(
        (
            EncryptedHandshake {
                attempt: Attempt {
                    local,
                    ephemeral: auth.ephemeral,
                    nonce: auth.nonce,
                    auth: auth.ciphertext,
                    hello,
                },
                state: EncryptedState::Connected,
                failure: None,
                session: None,
                pending: Vec::new(),
                peer_hello: None,
            },
            Action::Send(first),
        ),
    )
}

/// A handshake that has ended stays as it is, and the only thing left to do
/// is to close.
pub proof fn lemma_the_end_is_final(h: EncryptedView, event: Event)
    requires
        h.is_over(),
    ensures
        advanced(h, event) == (h, ActionView::Close),
{
}

/// Every event takes a running handshake further or fails it, and success
/// comes only after our hello was to be written: from `HelloSent`, or from
/// `SecretsDerived` where the peer's frame had already arrived.
pub proof fn lemma_steps_in_order(h: EncryptedView, event: Event)
    requires
        !h.is_over(),
    ensures
        advanced(h, event).0.state == EncryptedState::Failed || advanced(
            h,
            event,
        ).0.state.steps_done() > h.state.steps_done(),
        advanced(h, event).0.state == EncryptedState::Established ==> h.state
            == EncryptedState::HelloSent || h.state == EncryptedState::SecretsDerived,
        advanced(h, event).0.state != EncryptedState::Established ==> advanced(
            h,
            event,
        ).0.state == EncryptedState::Failed || advanced(h, event).0.state.steps_done()
            == h.state.steps_done() + 1,
{
}

/// A failure always ends in `Close` and drops the secrets of the session.
pub proof fn lemma_failure_closes(h: EncryptedView, event: Event)
    requires
        !h.is_over(),
    ensures
        advanced(h, event).0.state == EncryptedState::Failed ==> advanced(h, event).1
            == ActionView::Close && advanced(h, event).0.session is None,
{
}

/// A peer that answers our hello with a frame of another type than hello
/// fails the handshake, and where the frame holds a disconnect that can be
/// read, the failure is the peer's disconnect with its reason.
pub proof fn lemma_disconnect_ends_the_handshake(h: EncryptedView, bytes: Vec<u8>)
    requires
        h.state == EncryptedState::HelloSent,
        h.session is Some,
        frame_opened(h.session->Some_0, bytes@) is Ok,
        frame_opened(h.session->Some_0, bytes@)->Ok_0.0.len() > 0,
        single_byte_value(frame_opened(h.session->Some_0, bytes@)->Ok_0.0[0]) != Some(HELLO_ID),
    ensures
        advanced(h, Event::Received(bytes)).0.state == EncryptedState::Failed,
        advanced(h, Event::Received(bytes)).1 == ActionView::Close,
        ({
            let data = frame_opened(h.session->Some_0, bytes@)->Ok_0.0;
            single_byte_value(data[0]) is Some && disconnect_of(data.skip(1)) is Some ==> advanced(
                h,
                Event::Received(bytes),
            ).0.failure == Some(
                HandshakeError::PeerDisconnected { reason: disconnect_of(data.skip(1))->Some_0 },
            )
        }),
{
}

} // verus!
