//! Error taxonomy: wire-visible TFTP error codes, packet parse errors,
//! option-negotiation errors, and the engine-internal errors surfaced to
//! callers.

use vstd::prelude::*;

verus! {

/// Wire error codes of an ERROR packet (RFC 1350 and RFC 2347).
#[derive(Debug, Clone, Copy, PartialEq, Eq, Structural)]
pub enum ErrorCode {
    NotDefined,
    FileNotFound,
    AccessViolation,
    StorageError,
    IllegalOperation,
    UnknownTid,
    FileExists,
    NoSuchUser,
    InvalidOption,
}

impl ErrorCode {
    pub open spec fn spec_u16(&self) -> u16 {
        match self {
            ErrorCode::NotDefined => 0u16,
            ErrorCode::FileNotFound => 1u16,
            ErrorCode::AccessViolation => 2u16,
            ErrorCode::StorageError => 3u16,
            ErrorCode::IllegalOperation => 4u16,
            ErrorCode::UnknownTid => 5u16,
            ErrorCode::FileExists => 6u16,
            ErrorCode::NoSuchUser => 7u16,
            ErrorCode::InvalidOption => 8u16,
        }
    }

    /// The RFC-assigned numeric value of the code.
    pub fn as_u16(&self) -> (r: u16)
        ensures
            r == self.spec_u16(),
    {
        match self {
            ErrorCode::NotDefined => 0,
            ErrorCode::FileNotFound => 1,
            ErrorCode::AccessViolation => 2,
            ErrorCode::StorageError => 3,
            ErrorCode::IllegalOperation => 4,
            ErrorCode::UnknownTid => 5,
            ErrorCode::FileExists => 6,
            ErrorCode::NoSuchUser => 7,
            ErrorCode::InvalidOption => 8,
        }
    }

    /// Code named by a wire value; values outside 0..=8 map to `NotDefined`.
    pub open spec fn spec_of_u16(x: int) -> ErrorCode {
        if x == 1 {
            ErrorCode::FileNotFound
        } else if x == 2 {
            ErrorCode::AccessViolation
        } else if x == 3 {
            ErrorCode::StorageError
        } else if x == 4 {
            ErrorCode::IllegalOperation
        } else if x == 5 {
            ErrorCode::UnknownTid
        } else if x == 6 {
            ErrorCode::FileExists
        } else if x == 7 {
            ErrorCode::NoSuchUser
        } else if x == 8 {
            ErrorCode::InvalidOption
        } else {
            ErrorCode::NotDefined
        }
    }

    pub fn of_u16(x: u16) -> (r: ErrorCode)
        ensures
            r == ErrorCode::spec_of_u16(x as int),
    {
        if x == 1 {
            ErrorCode::FileNotFound
        } else if x == 2 {
            ErrorCode::AccessViolation
        } else if x == 3 {
            ErrorCode::StorageError
        } else if x == 4 {
            ErrorCode::IllegalOperation
        } else if x == 5 {
            ErrorCode::UnknownTid
        } else if x == 6 {
            ErrorCode::FileExists
        } else if x == 7 {
            ErrorCode::NoSuchUser
        } else if x == 8 {
            ErrorCode::InvalidOption
        } else {
            ErrorCode::NotDefined
        }
    }
}

/// Numeric codes round-trip through `spec_of_u16`.
pub proof fn lemma_error_code_roundtrip(c: ErrorCode)
    ensures
        ErrorCode::spec_of_u16(c.spec_u16() as int) == c,
{
}

/// Why a byte buffer failed to parse as a packet.
#[derive(Debug, Clone, Copy, PartialEq, Eq, Structural)]
pub enum ParseError {
    UnexpectedEof,
    MalformedPacket,
    UnexpectedOpcode,
    InvalidOpcode(u16),
    NotNullTerminated,
    NotAscii,
    UnknownTxMode,
}

/// Why option negotiation failed.
#[derive(Debug, Clone, Copy, PartialEq, Eq, Structural)]
pub enum OptionError {
    InvalidOption,
    NoAck,
}

/// An ERROR packet received from the peer, in owned form.
#[derive(Debug, PartialEq, Eq)]
pub struct TftpError {
    pub code: ErrorCode,
    pub msg: Vec<u8>,
}

impl TftpError {
    pub fn new(code: ErrorCode, msg: Vec<u8>) -> (r: TftpError)
        ensures
            r.code == code,
            r.msg@ == msg@,
    {
        TftpError { code, msg }
    }
}

/// Engine-internal errors of a running connection; these never appear on the
/// wire.
#[derive(Debug, PartialEq, Eq)]
pub enum ConnectionError {
    /// The transfer was cancelled by the host.
    Cancelled,
    /// A packet arrived that the protocol does not allow at this point.
    UnexpectedPacket,
    /// An ACK arrived for a block that was never outstanding.
    UnexpectedBlockAck,
    /// The retransmission bound was exhausted.
    Timeout,
    /// A datagram arrived from an address other than the locked peer.
    UnknownTid,
    /// The peer requested a transfer mode other than octet.
    UnsupportedTxMode,
    /// The peer terminated the transfer with an ERROR packet.
    PeerError(TftpError),
    /// The peer's datagram did not parse.
    InvalidResponse(ParseError),
    /// A socket operation failed; the caller holds the details.
    IO,
}

/// Errors of a whole request, as surfaced by the role drivers.
#[derive(Debug, PartialEq, Eq)]
pub enum RequestError {
    UnknownPeer,
    FileNotFound,
    FileNotAccessible,
    OptionNegotiationFailed(OptionError),
    MalformedRequest,
    ConnectionError(ConnectionError),
    OtherHostError,
}

} // verus!
