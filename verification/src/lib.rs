//! Core of a single-room line-protocol chat relay.
//!
//! The library holds the verified session/broadcast engine: token
//! allocation, the name registry with its uniqueness invariant, the
//! publish/subscribe fan-out bus, the server-side session state machine,
//! the peer-side client state machine, and the text of the line protocol
//! both sides speak.  Network transport, terminal rendering and logging
//! live outside the library and only feed it plain values.

pub mod bus;
pub mod peer;
pub mod protocol;
pub mod registry;
pub mod relay;
pub mod render;
pub mod session;
pub mod text;
pub mod token;

use vstd::prelude::*;

verus! {

} // verus!
