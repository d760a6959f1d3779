//! Errors.

use vstd::prelude::*;
use vstd::string::*;

verus! {

/// Errors that callers of the library see.
#[derive(Debug, PartialEq, Eq)]
pub enum SaltyError {
    /// Cryptography failed.
    Crypto(String),
    /// Something could not be decoded.
    Decode(String),
    /// The network connection failed.
    Network(String),
    /// The protocol was violated.
    Protocol(String),
    /// An unexpected condition.
    Crash(String),
}

/// The model of a [`SaltyError`].
pub enum SaltyFault {
    Crypto(Seq<char>),
    Decode(Seq<char>),
    Network(Seq<char>),
    Protocol(Seq<char>),
    Crash(Seq<char>),
}

impl View for SaltyError {
    type V = SaltyFault;

    open spec fn view(&self) -> SaltyFault {
        match self {
            SaltyError::Crypto(msg) => SaltyFault::Crypto(msg@),
            SaltyError::Decode(msg) => SaltyFault::Decode(msg@),
            SaltyError::Network(msg) => SaltyFault::Network(msg@),
            SaltyError::Protocol(msg) => SaltyFault::Protocol(msg@),
            SaltyError::Crash(msg) => SaltyFault::Crash(msg@),
        }
    }
}

/// A result with a [`SaltyError`].
pub type SaltyResult<T> = Result<T, SaltyError>;

/// Errors of the signaling.
#[derive(Debug, PartialEq, Eq)]
pub enum SignalingError {
    /// Cryptography failed.
    Crypto(String),
    /// Something could not be decoded.
    Decode(String),
    /// The protocol was violated.
    Protocol(String),
    /// An unexpected condition.
    Crash(String),
    /// All combined sequence numbers have been used up.
    CsnOverflow,
    /// The signaling state cannot change this way.
    InvalidStateTransition(String),
}

/// The model of a [`SignalingError`].
pub enum SignalingFault {
    Crypto(Seq<char>),
    Decode(Seq<char>),
    Protocol(Seq<char>),
    Crash(Seq<char>),
    CsnOverflow,
    InvalidStateTransition(Seq<char>),
}

impl SignalingFault {
    /// The text of the error.
    pub open spec fn message(self) -> Seq<char> {
        match self {
            SignalingFault::Crypto(msg) => "crypto error: "@ + msg,
            SignalingFault::Decode(msg) => "decode error: "@ + msg,
            SignalingFault::Protocol(msg) => "protocol error: "@ + msg,
            SignalingFault::Crash(msg) => "crash: "@ + msg,
            SignalingFault::CsnOverflow => "CSN overflow"@,
            SignalingFault::InvalidStateTransition(msg) => "invalid state transition: "@ + msg,
        }
    }

    /// What a caller of the library sees of the error: the kinds that it knows stay as
    /// they are, any other is unexpected.
    pub open spec fn reported(self) -> SaltyFault {
        match self {
            SignalingFault::Crypto(msg) => SaltyFault::Crypto(msg),
            SignalingFault::Decode(msg) => SaltyFault::Decode(msg),
            SignalingFault::Protocol(msg) => SaltyFault::Protocol(msg),
            SignalingFault::Crash(msg) => SaltyFault::Crash(msg),
            other => SaltyFault::Crash("Unexpected signaling error: "@ + other.message()),
        }
    }
}

impl View for SignalingError {
    type V = SignalingFault;

    open spec fn view(&self) -> SignalingFault {
        match self {
            SignalingError::Crypto(msg) => SignalingFault::Crypto(msg@),
            SignalingError::Decode(msg) => SignalingFault::Decode(msg@),
            SignalingError::Protocol(msg) => SignalingFault::Protocol(msg@),
            SignalingError::Crash(msg) => SignalingFault::Crash(msg@),
            SignalingError::CsnOverflow => SignalingFault::CsnOverflow,
            SignalingError::InvalidStateTransition(msg) => SignalingFault::InvalidStateTransition(
                msg@,
            ),
        }
    }
}

/// A result with a [`SignalingError`].
pub type SignalingResult<T> = Result<T, SignalingError>;

impl SignalingError {
    /// The text of the error.
    pub fn text(&self) -> (text: String)
        ensures
            text@ == self@.message(),
    {
        match self {
            SignalingError::Crypto(msg) => "crypto error: ".to_string().concat(msg.as_str()),
            SignalingError::Decode(msg) => "decode error: ".to_string().concat(msg.as_str()),
            SignalingError::Protocol(msg) => "protocol error: ".to_string().concat(msg.as_str()),
            SignalingError::Crash(msg) => "crash: ".to_string().concat(msg.as_str()),
            SignalingError::CsnOverflow => "CSN overflow".to_string(),
            SignalingError::InvalidStateTransition(
                msg,
            ) => "invalid state transition: ".to_string().concat(msg.as_str()),
        }
    }

    /// What a caller of the library sees of the error.
    pub fn into_salty(self) -> (e: SaltyError)
        ensures
            e@ == self@.reported(),
    {
        match self {
            SignalingError::Crypto(msg) => SaltyError::Crypto(msg),
            SignalingError::Decode(msg) => SaltyError::Decode(msg),
            SignalingError::Protocol(msg) => SaltyError::Protocol(msg),
            SignalingError::Crash(msg) => SaltyError::Crash(msg),
            other => SaltyError::Crash(
                "Unexpected signaling error: ".to_string().concat(other.text().as_str()),
            ),
        }
    }
}

/// Errors of the builder.
#[derive(Debug, Copy, Clone, PartialEq, Eq, Structural)]
pub enum BuilderError {
    /// No task was added.
    MissingTask,
}

} // verus!
