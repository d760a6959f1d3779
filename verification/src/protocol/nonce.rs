//! The nonce in front of every message.

use vstd::prelude::*;

use super::cookie::{Cookie, COOKIE_LENGTH};
use super::csn::CombinedSequenceSnapshot;
use super::types::Address;

verus! {

/// Length of a nonce in bytes.
pub const NONCE_LENGTH: usize = 24;

/// The number `n` as two bytes, most significant first.
pub open spec fn be16(n: u16) -> Seq<u8> {
    seq![(n / 0x100) as u8, (n % 0x100) as u8]
}

/// The number `n` as four bytes, most significant first.
pub open spec fn be32(n: u32) -> Seq<u8> {
    be16((n / 0x1_0000) as u16) + be16((n % 0x1_0000) as u16)
}

/// The nonce of a message: the sender's cookie, the addresses of the sender and of the
/// receiver, and the message's combined sequence number.
#[derive(Debug, Copy, Clone, PartialEq, Eq)]
pub struct Nonce {
    pub cookie: Cookie,
    pub source: Address,
    pub destination: Address,
    pub csn: CombinedSequenceSnapshot,
}

impl Nonce {
    /// The nonce on the wire: 16 bytes of cookie, one byte of source and one of
    /// destination, the overflow number and the sequence number.
    pub open spec fn encoded(self) -> Seq<u8> {
        self.cookie.bytes@ + seq![self.source.0, self.destination.0] + be16(self.csn.overflow)
            + be32(self.csn.sequence)
    }

    /// The nonce with the given parts.
    pub fn new(
        cookie: Cookie,
        source: Address,
        destination: Address,
        csn: CombinedSequenceSnapshot,
    ) -> (nonce: Self)
        ensures
            nonce == (Nonce { cookie, source, destination, csn }),
    {
        Nonce { cookie, source, destination, csn }
    }

    /// The sender's cookie.
    pub fn cookie(&self) -> (cookie: &Cookie)
        ensures
            *cookie == self.cookie,
    {
        &self.cookie
    }

    /// The sender's address.
    pub fn source(&self) -> (address: Address)
        ensures
            address == self.source,
    {
        self.source
    }

    /// The receiver's address.
    pub fn destination(&self) -> (address: Address)
        ensures
            address == self.destination,
    {
        self.destination
    }

    /// The combined sequence number.
    pub fn csn(&self) -> (csn: &CombinedSequenceSnapshot)
        ensures
            *csn == self.csn,
    {
        &self.csn
    }

    /// Append the nonce on the wire to `out`.
    pub fn write(&self, out: &mut Vec<u8>)
        ensures
            final(out)@ == old(out)@ + self.encoded(),
    {
        let mut i: usize = 0;
        while i < COOKIE_LENGTH
            invariant
                i <= COOKIE_LENGTH,
                out@ == old(out)@ + self.cookie.bytes@.subrange(0, i as int),
            decreases COOKIE_LENGTH - i,
        {
            out.push(self.cookie.bytes[i]);
            i = i + 1;
            assert(self.cookie.bytes@.subrange(0, i as int) =~= self.cookie.bytes@.subrange(
                0,
                i - 1,
            ).push(self.cookie.bytes@[i - 1]));
        }
        assert(self.cookie.bytes@.subrange(0, COOKIE_LENGTH as int) =~= self.cookie.bytes@);
        let high: u16 = (self.csn.sequence / 0x1_0000) as u16;
        let low: u16 = (self.csn.sequence % 0x1_0000) as u16;
        out.push(self.source.0);
        out.push(self.destination.0);
        out.push((self.csn.overflow / 0x100) as u8);
        out.push((self.csn.overflow % 0x100) as u8);
        out.push((high / 0x100) as u8);
        out.push((high % 0x100) as u8);
        out.push((low / 0x100) as u8);
        out.push((low % 0x100) as u8);
        assert(out@ =~= old(out)@ + self.encoded());
    }

    /// The nonce at the start of `bytes`.
    pub fn read(bytes: &[u8]) -> (nonce: Nonce)
        requires
            bytes@.len() >= NONCE_LENGTH,
        ensures
            nonce.encoded() == bytes@.subrange(0, NONCE_LENGTH as int),
    {
        let mut cookie: [u8; COOKIE_LENGTH] = [0u8; COOKIE_LENGTH];
        let mut i: usize = 0;
        while i < COOKIE_LENGTH
            invariant
                i <= COOKIE_LENGTH,
                bytes@.len() >= NONCE_LENGTH,
                forall|j: int| 0 <= j < i ==> cookie[j] == bytes@[j],
            decreases COOKIE_LENGTH - i,
        {
            cookie[i] = bytes[i];
            i = i + 1;
        }
        let overflow: u16 = bytes[18] as u16 * 0x100 + bytes[19] as u16;
        let high: u32 = bytes[20] as u32 * 0x100 + bytes[21] as u32;
        let low: u32 = bytes[22] as u32 * 0x100 + bytes[23] as u32;
        let nonce = Nonce {
            cookie: Cookie { bytes: cookie },
            source: Address(bytes[16]),
            destination: Address(bytes[17]),
            csn: CombinedSequenceSnapshot { overflow, sequence: high * 0x1_0000 + low },
        };
        assert(nonce.encoded() =~= bytes@.subrange(0, NONCE_LENGTH as int));
        nonce
    }
}

/// A nonce takes 24 bytes on the wire.
pub proof fn encoded_nonce_has_24_bytes(nonce: Nonce)
    ensures
        nonce.encoded().len() == NONCE_LENGTH,
{
}

/// Different nonces differ on the wire.
pub proof fn nonce_encoding_is_injective(a: Nonce, b: Nonce)
    requires
        a.encoded() == b.encoded(),
    ensures
        a == b,
{
    let x = a.encoded();
    let y = b.encoded();
    assert forall|i: int| 0 <= i < COOKIE_LENGTH implies a.cookie.bytes[i] == b.cookie.bytes[i] by {
        assert(x[i] == a.cookie.bytes@[i]);
        assert(y[i] == b.cookie.bytes@[i]);
    }
    assert(a.cookie.bytes =~= b.cookie.bytes);
    assert(x[16] == a.source.0 && y[16] == b.source.0);
    assert(x[17] == a.destination.0 && y[17] == b.destination.0);
    assert(x[18] == (a.csn.overflow / 0x100) as u8 && y[18] == (b.csn.overflow / 0x100) as u8);
    assert(x[19] == (a.csn.overflow % 0x100) as u8 && y[19] == (b.csn.overflow % 0x100) as u8);
    let ah = (a.csn.sequence / 0x1_0000) as u16;
    let al = (a.csn.sequence % 0x1_0000) as u16;
    let bh = (b.csn.sequence / 0x1_0000) as u16;
    let bl = (b.csn.sequence % 0x1_0000) as u16;
    assert(x[20] == (ah / 0x100) as u8 && y[20] == (bh / 0x100) as u8);
    assert(x[21] == (ah % 0x100) as u8 && y[21] == (bh % 0x100) as u8);
    assert(x[22] == (al / 0x100) as u8 && y[22] == (bl / 0x100) as u8);
    assert(x[23] == (al % 0x100) as u8 && y[23] == (bl % 0x100) as u8);
    assert(ah == bh && al == bl);
}

} // verus!
