//! The accept step of the relay.  For each incoming connection the accept
//! loop allocates a fresh token and owes the peer its greeting line; the
//! loop itself, and every socket, live outside the library.

use vstd::prelude::*;
use crate::protocol::spec_token_line;
use crate::protocol::token_line;
use crate::token::TokenAllocator;

verus! {

/// What a newly accepted connection is owed: its token and the greeting
/// line carrying it.
pub struct Acceptance {
    pub token: u64,
    pub greeting: String,
}

/// Accepts one connection: issues the next token and builds the greeting
/// line to send before name negotiation starts.  A failure to deliver the
/// greeting concerns only this connection; the allocator remains valid for
/// all others.
pub fn accept_next(alloc: &mut TokenAllocator) -> (r: Acceptance)
    requires
        old(alloc).wf(),
        old(alloc).counter() < u64::MAX,
    ensures
        final(alloc).wf(),
        r.token == old(alloc).counter(),
        final(alloc).counter() == old(alloc).counter() + 1,
        final(alloc).issued() == old(alloc).issued().push(r.token),
        r.greeting@ == spec_token_line(r.token as nat),
{
    let token = alloc.next();
    let greeting = token_line(token);
    Acceptance { token, greeting }
}

} // verus!
