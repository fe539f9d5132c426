//! Core of a TFTP (RFC 1350) endpoint with the common option extensions
//! (RFC 2347/2348/2349): the packet codec, option negotiation, and the
//! stop-and-wait transfer state machines with retransmission and transfer
//! identifier (TID) validation. Socket and file I/O live outside this crate;
//! the engine works on plain byte buffers and explicit events.

pub mod builder;
pub mod bytes;
pub mod client;
pub mod conn;
pub mod error;
pub mod options;
pub mod packet;
pub mod server;
pub mod transfer;

use vstd::prelude::*;

verus! {

/// Default DATA payload size in bytes (RFC 1350).
pub const DEFAULT_BLOCK_SIZE: u16 = 512;

/// Default receive timeout in seconds.
pub const DEFAULT_TIMEOUT_SECS: u8 = 5;

/// Default bound on consecutive retransmissions of one block.
pub const DEFAULT_RETRANSMIT_ATTEMPTS: u8 = 5;

/// Well-known TFTP server port.
pub const TFTP_LISTEN_PORT: u16 = 69;

pub const OPCODE_RRQ: u16 = 1;
pub const OPCODE_WRQ: u16 = 2;
pub const OPCODE_DATA: u16 = 3;
pub const OPCODE_ACK: u16 = 4;
pub const OPCODE_ERROR: u16 = 5;
pub const OPCODE_OACK: u16 = 6;

/// The two request kinds that can open a transfer.
#[derive(Debug, Clone, Copy, PartialEq, Eq, Structural)]
pub enum RequestKind {
    Rrq,
    Wrq,
}

impl RequestKind {
    /// Wire opcode of the request (RRQ = 1, WRQ = 2).
    pub fn opcode(&self) -> (r: u16)
        ensures
            r == self.spec_opcode(),
    {
        match self {
            RequestKind::Rrq => 1,
            RequestKind::Wrq => 2,
        }
    }

    pub open spec fn spec_opcode(&self) -> u16 {
        match self {
            RequestKind::Rrq => 1u16,
            RequestKind::Wrq => 2u16,
        }
    }
}

/// Transfer mode named in a request. Only octet transfers are supported;
/// netascii is recognized so it can be refused explicitly.
#[derive(Debug, Clone, Copy, PartialEq, Eq, Structural)]
pub enum Mode {
    NetAscii,
    Octet,
}

impl Mode {
    /// The lower-case wire spelling of the mode.
    pub fn as_bytes(&self) -> (r: Vec<u8>)
        ensures
            r@ == self.spec_bytes(),
    {
        match self {
            Mode::Octet => octet_bytes(),
            Mode::NetAscii => netascii_bytes(),
        }
    }

    pub open spec fn spec_bytes(&self) -> Seq<u8> {
        match self {
            Mode::Octet => spec_octet(),
            Mode::NetAscii => spec_netascii(),
        }
    }

    /// The wire spelling of the mode as a string.
    pub fn as_str(&self) -> (r: &'static str)
        ensures
            *self == Mode::Octet ==> r@ == "octet"@,
            *self == Mode::NetAscii ==> r@ == "netascii"@,
    {
        match self {
            Mode::Octet => "octet",
            Mode::NetAscii => "netascii",
        }
    }
}

/// The bytes of "octet".
pub open spec fn spec_octet() -> Seq<u8> {
    seq![111u8, 99u8, 116u8, 101u8, 116u8]
}

/// The bytes of "netascii".
pub open spec fn spec_netascii() -> Seq<u8> {
    seq![110u8, 101u8, 116u8, 97u8, 115u8, 99u8, 105u8, 105u8]
}

pub fn octet_bytes() -> (r: Vec<u8>)
    ensures
        r@ == spec_octet(),
{
    let mut v: Vec<u8> = Vec::new();
    v.push(111);
    v.push(99);
    v.push(116);
    v.push(101);
    v.push(116);
    proof {
        assert(v@ =~= spec_octet());
    }
    v
}

pub fn netascii_bytes() -> (r: Vec<u8>)
    ensures
        r@ == spec_netascii(),
{
    let mut v: Vec<u8> = Vec::new();
    v.push(110);
    v.push(101);
    v.push(116);
    v.push(97);
    v.push(115);
    v.push(99);
    v.push(105);
    v.push(105);
    proof {
        assert(v@ =~= spec_netascii());
    }
    v
}

} // verus!
