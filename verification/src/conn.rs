//! Connection-level state that does not live in the socket: the transfer
//! mode, the effective options, and the locked peer address (the TID).
//! The receive path validates every datagram's source against the locked
//! peer before it can touch any transfer state.

use vstd::prelude::*;

use crate::error::{ConnectionError, ErrorCode, ParseError, RequestError};
use crate::options::{TftpOption, TftpOptions};
use crate::packet::{spec_classify, spec_error_bytes, MutableTftpError, TftpPacket};
use crate::Mode;

verus! {

/// A peer's transfer identifier: IP address (IPv4 mapped into the IPv6
/// space, or IPv6) and UDP port, as plain values.
#[derive(Debug, Clone, Copy, PartialEq, Eq, Structural)]
pub struct PeerAddr {
    pub ip: u128,
    pub port: u16,
}

/// Verdict of the source check on an inbound datagram.
#[derive(Debug, Clone, Copy, PartialEq, Eq, Structural)]
pub enum SourceCheck {
    /// The datagram may be handed to the transfer.
    Accepted,
    /// Answer the sender with an `UnknownTid` ERROR; the transfer ignores
    /// the datagram.
    RejectUnknownTid,
}

/// The message of the `UnknownTid` ERROR reply.
pub open spec fn spec_unknown_tid_msg() -> Seq<u8> {
    seq![85u8, 110u8, 107u8, 110u8, 111u8, 119u8, 110u8, 32u8, 84u8, 73u8, 68u8]
}

/// The ERROR packet owed to a datagram from an unexpected source: code 5
/// with the message "Unknown TID", addressed to that source.
pub fn unknown_tid_reply() -> (r: Vec<u8>)
    ensures
        r@ == spec_error_bytes(ErrorCode::UnknownTid, spec_unknown_tid_msg()),
{
    let mut msg: Vec<u8> = Vec::new();
    msg.push(85);
    msg.push(110);
    msg.push(107);
    msg.push(110);
    msg.push(111);
    msg.push(119);
    msg.push(110);
    msg.push(32);
    msg.push(84);
    msg.push(73);
    msg.push(68);
    proof {
        assert(msg@ =~= spec_unknown_tid_msg());
    }
    let pkt = MutableTftpError::with(ErrorCode::UnknownTid, msg.as_slice());
    pkt.buf
}

/// Connection state apart from the socket itself: mode, effective options,
/// and the locked peer.
pub struct TftpConnState {
    pub tx_mode: Mode,
    pub options: TftpOptions,
    pub peer: Option<PeerAddr>,
}

impl TftpConnState {
    /// A fresh connection: octet mode, protocol defaults, peer unlocked.
    pub fn new() -> (r: TftpConnState)
        ensures
            r.tx_mode == Mode::Octet,
            r.options == TftpOptions::spec_default(),
            r.peer is None,
    {
        TftpConnState { tx_mode: Mode::Octet, options: TftpOptions::default(), peer: None }
    }

    pub fn tx_mode(&self) -> (r: Mode)
        ensures
            r == self.tx_mode,
    {
        self.tx_mode
    }

    pub fn opt_blocksize(&self) -> (r: u16)
        ensures
            r == self.options.blocksize,
    {
        self.options.blocksize
    }

    /// The effective receive timeout, in seconds.
    pub fn opt_timeout(&self) -> (r: u8)
        ensures
            r == self.options.timeout_secs,
    {
        self.options.timeout_secs
    }

    pub fn opt_transfer_size(&self) -> (r: u32)
        ensures
            r == self.options.transfer_size,
    {
        self.options.transfer_size
    }

    pub fn peer(&self) -> (r: Option<PeerAddr>)
        ensures
            r == self.peer,
    {
        self.peer
    }

    /// Adopts a transfer mode. Only octet is supported: netascii leaves the
    /// state unchanged and fails with `UnsupportedTxMode` (the caller owes
    /// the peer an `IllegalOperation` ERROR).
    pub fn set_tx_mode(&mut self, tx_mode: Mode) -> (r: Result<(), ConnectionError>)
        ensures
            tx_mode == Mode::Octet ==> r is Ok && *final(self) == (TftpConnState {
                tx_mode,
                ..*old(self)
            }),
            tx_mode == Mode::NetAscii ==> r == Err::<(), _>(ConnectionError::UnsupportedTxMode)
                && *final(self) == *old(self),
    {
        match tx_mode {
            Mode::Octet => {
                self.tx_mode = Mode::Octet;
                Ok(())
            },
            Mode::NetAscii => Err(ConnectionError::UnsupportedTxMode),
        }
    }

    /// Overrides the effective options with each accepted option in order.
    pub fn set_options(&mut self, opts: &Vec<TftpOption>)
        ensures
            final(self).options == TftpOptions::spec_apply(old(self).options, opts@),
            final(self).tx_mode == old(self).tx_mode,
            final(self).peer == old(self).peer,
    {
        self.options.set_options(opts);
    }

    /// Locks the peer address (the TID). Idempotent for the same address;
    /// relocking to a different address is a caller error.
    pub fn lock_peer(&mut self, addr: PeerAddr)
        requires
            old(self).peer is None || old(self).peer == Some(addr),
        ensures
            *final(self) == (TftpConnState { peer: Some(addr), ..*old(self) }),
    {
        self.peer = Some(addr);
    }

    /// The client-side TID assignment: the first reply to a request must
    /// come from the requested server's IP, while its source port — the
    /// server's fresh ephemeral port — becomes the peer TID. A reply from
    /// any other IP is `UnknownPeer`.
    pub fn check_first_reply_source(server_ip: u128, src: PeerAddr) -> (r: Result<
        PeerAddr,
        RequestError,
    >)
        ensures
            r is Ok <==> src.ip == server_ip,
            r matches Ok(p) ==> p == src,
            r is Err ==> r == Err::<PeerAddr, _>(RequestError::UnknownPeer),
    {
        if src.ip == server_ip {
            Ok(src)
        } else {
            Err(RequestError::UnknownPeer)
        }
    }

    /// The TID gate: accepts a datagram exactly when no peer is locked yet
    /// or the source is the locked peer. Takes the state immutably, so a
    /// rejected datagram cannot affect any transfer state.
    pub fn check_source(&self, src: PeerAddr) -> (r: SourceCheck)
        ensures
            r == SourceCheck::Accepted <==> (self.peer is None || self.peer == Some(src)),
            r == SourceCheck::Accepted || r == SourceCheck::RejectUnknownTid,
    {
        match self.peer {
            None => SourceCheck::Accepted,
            Some(p) => {
                if p == src {
                    SourceCheck::Accepted
                } else {
                    SourceCheck::RejectUnknownTid
                }
            },
        }
    }

    /// The connection's receive path, minus the socket: validates the
    /// datagram's source against the locked peer, then classifies the
    /// bytes. A datagram from any other address yields `UnknownTid` (the
    /// caller answers that source with `unknown_tid_reply`); a datagram
    /// that does not parse yields `InvalidResponse`.
    pub fn receive_check<'a>(&self, buf: &'a [u8], src: PeerAddr) -> (r: Result<
        TftpPacket<'a>,
        ConnectionError,
    >)
        ensures
            match r {
                Ok(p) => (self.peer is None || self.peer == Some(src)) && spec_classify(buf@)
                    == Ok::<_, ParseError>(p.spec_kind()) && p@ == buf@ && p.wf(),
                Err(e) => match e {
                    ConnectionError::UnknownTid => !(self.peer is None || self.peer == Some(src)),
                    ConnectionError::InvalidResponse(pe) => (self.peer is None || self.peer
                        == Some(src)) && spec_classify(buf@) == Err::<
                        crate::packet::PacketKind,
                        _,
                    >(pe),
                    _ => false,
                },
            },
    {
        match self.check_source(src) {
            SourceCheck::RejectUnknownTid => Err(ConnectionError::UnknownTid),
            SourceCheck::Accepted => match TftpPacket::try_from_buf(buf) {
                Ok(p) => Ok(p),
                Err(e) => Err(ConnectionError::InvalidResponse(e)),
            },
        }
    }
}

} // verus!
