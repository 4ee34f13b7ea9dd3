//! Opaque handles into the embedded runtime's heap.
//!
//! A handle is an address-sized token. The host never reads through it: it is
//! compared, and handed back to the runtime. Every referent is owned by the
//! runtime's collector; a handle stays valid while the referent is reachable
//! from the runtime's roots, or while it is held on the stack during one call
//! sequence, in which the runtime does not collect.
use vstd::prelude::*;

verus! {

/// The token by which the runtime denotes "no result".
pub const VOID_ADDR: usize = 0x2E;

/// The token by which the runtime denotes the end of input.
pub const EOF_ADDR: usize = 0x36;

/// A value of the embedded runtime; equality is identity of the token.
#[derive(Clone, Copy, Debug, PartialEq, Eq, Structural)]
pub struct Handle {
    pub addr: usize,
}

impl Handle {
    /// Is this the "no result" sentinel?
    pub open spec fn spec_is_void(&self) -> bool {
        self.addr == VOID_ADDR
    }

    /// Is this the end-of-input sentinel?
    pub open spec fn spec_is_eof(&self) -> bool {
        self.addr == EOF_ADDR
    }

    pub fn from_addr(addr: usize) -> (h: Handle)
        ensures
            h.addr == addr,
    {
        Handle { addr }
    }

    /// The "no result" sentinel.
    pub fn void() -> (h: Handle)
        ensures
            h.spec_is_void(),
    {
        Handle { addr: VOID_ADDR }
    }

    /// The end-of-input sentinel.
    pub fn eof() -> (h: Handle)
        ensures
            h.spec_is_eof(),
    {
        Handle { addr: EOF_ADDR }
    }

    #[verifier::when_used_as_spec(spec_is_void)]
    pub fn is_void(&self) -> (r: bool)
        ensures
            r == self.spec_is_void(),
    {
        self.addr == VOID_ADDR
    }

    #[verifier::when_used_as_spec(spec_is_eof)]
    pub fn is_eof(&self) -> (r: bool)
        ensures
            r == self.spec_is_eof(),
    {
        self.addr == EOF_ADDR
    }
}

} // verus!
