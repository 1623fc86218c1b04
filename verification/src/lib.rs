//! Opening handshakes for two peer-to-peer protocols, with the byte layouts
//! and the state machines stated as contracts.
//!
//! The plaintext protocol wraps every message in an envelope and opens with
//! an exchange of version messages and acknowledgements:
//! [`envelope`], [`version`], [`version_handshake`].
//!
//! The encrypted protocol opens with a key agreement sealed to the peer's
//! public key, derives the secrets of a session from it, and exchanges hello
//! messages in tagged frames:
//! [`keys`], [`ecies`], [`auth`], [`session`], [`hello`], [`eth_handshake`].
//!
//! Neither handshake touches a connection. Each is a state machine that hands
//! out an action and takes back an event, see [`transport`]; the caller owns
//! the connection, the clock and the bound on waiting.
//!
//! Hashes, ciphers, curve arithmetic, the structured encoding and random
//! numbers are the work of other crates. Their results carry names in the
//! contracts: [`hash`], [`cipher`], [`keys`], [`rlp_items`], [`random`].

pub mod auth;
pub mod bytes;
pub mod cipher;
pub mod ecies;
pub mod envelope;
pub mod error;
pub mod eth_handshake;
pub mod hash;
pub mod hello;
pub mod keys;
pub mod random;
pub mod rlp_items;
pub mod session;
pub mod transport;
pub mod version;
pub mod version_handshake;
