//! Combined sequence numbers.
//!
//! A combined sequence number is a 48-bit number: a 16-bit overflow number
//! followed by a 32-bit sequence number.

use vstd::prelude::*;

verus! {

/// The combined sequence number of one message.
#[derive(Debug, Copy, Clone, PartialEq, Eq, Structural)]
pub struct CombinedSequenceSnapshot {
    pub overflow: u16,
    pub sequence: u32,
}

/// The largest combined sequence number.
pub open spec fn csn_max() -> nat {
    0xffff_ffff_ffff
}

impl CombinedSequenceSnapshot {
    /// The number itself.
    pub open spec fn value(self) -> nat {
        (self.overflow * 0x1_0000_0000 + self.sequence) as nat
    }

    /// The snapshot with the two parts.
    pub fn new(overflow: u16, sequence: u32) -> (snapshot: Self)
        ensures
            snapshot == (CombinedSequenceSnapshot { overflow, sequence }),
    {
        CombinedSequenceSnapshot { overflow, sequence }
    }

    /// The overflow number.
    pub fn overflow_number(&self) -> (n: u16)
        ensures
            n == self.overflow,
    {
        self.overflow
    }

    /// The number itself.
    pub fn number(&self) -> (n: u64)
        ensures
            n == self.value(),
            n <= csn_max(),
    {
        self.overflow as u64 * 0x1_0000_0000 + self.sequence as u64
    }
}

/// Two snapshots of the same number are the same snapshot.
pub proof fn csn_value_is_injective(a: CombinedSequenceSnapshot, b: CombinedSequenceSnapshot)
    requires
        a.value() == b.value(),
    ensures
        a == b,
{
}

/// All combined sequence numbers have been used up.
#[derive(Debug, Copy, Clone, PartialEq, Eq, Structural)]
pub struct CsnOverflow;

impl CsnOverflow {
    /// The text of the error.
    pub open spec fn message() -> Seq<char> {
        "overflow number has reached its maximum"@
    }

    /// The text of the error.
    pub fn text(&self) -> (text: String)
        ensures
            text@ == Self::message(),
    {
        "overflow number has reached its maximum".to_string()
    }
}

/// The combined sequence number of an outgoing stream of messages.
#[derive(Debug, Copy, Clone, PartialEq, Eq, Structural)]
pub struct CombinedSequence {
    pub overflow: u16,
    pub sequence: u32,
}

impl CombinedSequence {
    /// The current number as a snapshot.
    pub open spec fn snapshot(self) -> CombinedSequenceSnapshot {
        CombinedSequenceSnapshot { overflow: self.overflow, sequence: self.sequence }
    }

    /// The number itself.
    pub open spec fn value(self) -> nat {
        self.snapshot().value()
    }

    /// The sequence whose number is `n`.
    pub open spec fn of(n: nat) -> CombinedSequence
        recommends
            n <= csn_max(),
    {
        CombinedSequence {
            overflow: (n / 0x1_0000_0000) as u16,
            sequence: (n % 0x1_0000_0000) as u32,
        }
    }

    /// The sequence after the next message: its number is one higher. There is none
    /// after the largest number.
    pub open spec fn next(self) -> Option<CombinedSequence> {
        if self.value() < csn_max() {
            Some(CombinedSequence::of(self.value() + 1))
        } else {
            None
        }
    }

    /// A sequence that starts at `sequence`, with an overflow number of 0.
    pub fn new(sequence: u32) -> (csn: Self)
        ensures
            csn == (CombinedSequence { overflow: 0, sequence }),
    {
        CombinedSequence { overflow: 0, sequence }
    }

    /// Increment the number by 1 and return it. At the largest number it stays as it is.
    pub fn increment(&mut self) -> (result: Result<CombinedSequenceSnapshot, CsnOverflow>)
        ensures
            match old(self).next() {
                Some(next) => {
                    &&& *final(self) == next
                    &&& final(self).value() == old(self).value() + 1
                    &&& result == Ok::<CombinedSequenceSnapshot, CsnOverflow>(next.snapshot())
                },
                None => {
                    &&& *final(self) == *old(self)
                    &&& result == Err::<CombinedSequenceSnapshot, CsnOverflow>(CsnOverflow)
                },
            },
    {
        proof {
            next_counts_up(*self);
        }
        if self.sequence < u32::MAX {
            self.sequence = self.sequence + 1;
        } else if self.overflow < u16::MAX {
            self.overflow = self.overflow + 1;
            self.sequence = 0;
        } else {
            return Err(CsnOverflow);
        }
        Ok(CombinedSequenceSnapshot { overflow: self.overflow, sequence: self.sequence })
    }
}

/// The number of the next message is one higher than the last, and there is a next
/// number unless both parts are at their maximum.
pub proof fn next_counts_up(csn: CombinedSequence)
    ensures
        csn.next() matches Some(next) ==> next.value() == csn.value() + 1,
        csn.next() is None <==> csn.overflow == u16::MAX && csn.sequence == u32::MAX,
        csn.sequence < u32::MAX ==> csn.next() == Some(
            CombinedSequence { overflow: csn.overflow, sequence: (csn.sequence + 1) as u32 },
        ),
        csn.sequence == u32::MAX && csn.overflow < u16::MAX ==> csn.next() == Some(
            CombinedSequence { overflow: (csn.overflow + 1) as u16, sequence: 0 },
        ),
{
}

/// The sequence numbers used between us and one peer.
#[derive(Debug, Copy, Clone, PartialEq, Eq, Structural)]
pub struct CombinedSequencePair {
    /// The number of the last message that we sent.
    pub ours: CombinedSequence,
    /// The number of the last message that we accepted.
    pub theirs: Option<CombinedSequenceSnapshot>,
}

impl CombinedSequencePair {
    /// The pair before the first message, with our side starting at `sequence`.
    pub open spec fn starting_at(sequence: u32) -> CombinedSequencePair {
        CombinedSequencePair { ours: CombinedSequence { overflow: 0, sequence }, theirs: None }
    }

    /// The pair before the first message, with our side starting at `sequence`.
    pub fn new(sequence: u32) -> (pair: Self)
        ensures
            pair == Self::starting_at(sequence),
    {
        CombinedSequencePair { ours: CombinedSequence::new(sequence), theirs: None }
    }
}

} // verus!
