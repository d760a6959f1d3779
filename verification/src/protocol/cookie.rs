//! Cookies and the values that a new peer context starts with.

use vstd::prelude::*;

verus! {

/// Length of a cookie in bytes.
pub const COOKIE_LENGTH: usize = 16;

/// Random bytes that one side puts into every message to one peer.
#[derive(Debug, Copy, Clone, Eq)]
pub struct Cookie {
    pub bytes: [u8; COOKIE_LENGTH],
}

impl PartialEq for Cookie {
    fn eq(&self, other: &Self) -> (same: bool) {
        let mut i: usize = 0;
        while i < COOKIE_LENGTH
            invariant
                i <= COOKIE_LENGTH,
                forall|j: int| 0 <= j < i ==> self.bytes[j] == other.bytes[j],
            decreases COOKIE_LENGTH - i,
        {
            if self.bytes[i] != other.bytes[i] {
                return false;
            }
            i = i + 1;
        }
        assert(self.bytes =~= other.bytes);
        true
    }
}

impl vstd::std_specs::cmp::PartialEqSpecImpl for Cookie {
    open spec fn obeys_eq_spec() -> bool {
        true
    }

    open spec fn eq_spec(&self, other: &Self) -> bool {
        *self == *other
    }
}

impl Cookie {
    /// The cookie with the given bytes.
    pub fn new(bytes: [u8; COOKIE_LENGTH]) -> (cookie: Self)
        ensures
            cookie == (Cookie { bytes }),
    {
        Cookie { bytes }
    }
}

/// The cookies used between us and one peer.
#[derive(Debug, Copy, Clone, PartialEq, Eq)]
pub struct CookiePair {
    /// The cookie in our messages to the peer.
    pub ours: Cookie,
    /// The cookie in the peer's messages to us, once one was accepted.
    pub theirs: Option<Cookie>,
}

impl CookiePair {
    /// The pair before the first message from the peer.
    pub open spec fn starting_with(ours: Cookie) -> CookiePair {
        CookiePair { ours, theirs: None }
    }

    /// The pair before the first message from the peer.
    pub fn new(ours: Cookie) -> (pair: Self)
        ensures
            pair == Self::starting_with(ours),
    {
        CookiePair { ours, theirs: None }
    }
}

/// Random values that a new peer context starts with: our cookie for that peer and
/// our first sequence number.
#[derive(Debug, Copy, Clone, PartialEq, Eq)]
pub struct Seed {
    pub cookie: Cookie,
    pub sequence: u32,
}

impl Seed {
    /// The seed that consists of the two values.
    pub fn new(cookie: Cookie, sequence: u32) -> (seed: Self)
        ensures
            seed == (Seed { cookie, sequence }),
    {
        Seed { cookie, sequence }
    }
}

} // verus!
