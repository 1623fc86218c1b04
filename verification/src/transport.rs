//! What passes between a handshake and the caller that owns the connection.
//!
//! The library never touches a connection. It hands out an `Action`; the
//! caller performs it and reports an `Event`.

use vstd::prelude::*;

verus! {

/// What the caller reports after performing an action.
#[derive(Debug)]
pub enum Event {
    /// The bytes of a `Send` were written.
    Written,
    /// Writing failed.
    WriteFailed,
    /// These bytes were read.
    Received(Vec<u8>),
    /// Reading failed.
    ReadFailed,
    /// The caller's bound on waiting ran out.
    TimedOut,
}

/// What the caller is to do next.
#[derive(Debug)]
pub enum Action {
    /// Write these bytes to the connection.
    Send(Vec<u8>),
    /// Read what the peer sent.
    Receive,
    /// Close the connection: the handshake is over.
    Close,
}

/// An action as a mathematical value.
pub enum ActionView {
    Send(Seq<u8>),
    Receive,
    Close,
}

impl View for Action {
    type V = ActionView;

    open spec fn view(&self) -> ActionView {
        match self {
            Action::Send(bytes) => ActionView::Send(bytes@),
            Action::Receive => ActionView::Receive,
            Action::Close => ActionView::Close,
        }
    }
}

} // verus!
