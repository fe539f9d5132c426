//! The client side of a request: the options a client asks for, the check
//! that an OACK only acknowledges what was requested, and the handling of
//! the server's first reply with the silent fallback to protocol defaults.

use vstd::prelude::*;

use crate::bytes::lower_seq;
use crate::conn::TftpConnState;
use crate::error::{ConnectionError, OptionError, RequestError};
use crate::options::{
    key_blksize, key_timeout, key_tsize, spec_key_blksize, spec_key_timeout, spec_key_tsize,
    spec_parse_tftp_options, TftpOption, TftpOptionKind, TftpOptions,
};
use crate::packet::{pairs_view, spec_oack_options, TftpPacket};
use crate::RequestKind;

verus! {

/// The caller-supplied transfer configuration of a client request.
#[derive(Debug, Clone, Copy, PartialEq, Eq, Structural)]
pub struct ClientOpts {
    pub blocksize: u16,
    pub timeout: u8,
    pub transfer_size: bool,
}

impl ClientOpts {
    /// The options a request built from this configuration asks for:
    /// `tsize` when requested (with value 0), and blocksize and timeout
    /// when they differ from the protocol defaults.
    pub open spec fn spec_request_options(&self) -> Seq<TftpOption> {
        let s0: Seq<TftpOption> = if self.transfer_size {
            seq![TftpOption::TransferSize(0u32)]
        } else {
            Seq::empty()
        };
        let s1: Seq<TftpOption> = if self.blocksize != 512 {
            s0 + seq![TftpOption::Blocksize(self.blocksize)]
        } else {
            s0
        };
        if self.timeout != 5 {
            s1 + seq![TftpOption::Timeout(self.timeout)]
        } else {
            s1
        }
    }

    pub fn request_options(&self) -> (r: Vec<TftpOption>)
        ensures
            r@ == self.spec_request_options(),
    {
        let mut v: Vec<TftpOption> = Vec::new();
        if self.transfer_size {
            v.push(TftpOption::TransferSize(0));
        }
        if self.blocksize != 512 {
            v.push(TftpOption::Blocksize(self.blocksize));
        }
        if self.timeout != 5 {
            v.push(TftpOption::Timeout(self.timeout));
        }
        proof {
            assert(v@ =~= self.spec_request_options());
        }
        v
    }
}

/// The option kind a raw key names, compared case-insensitively.
pub open spec fn spec_key_kind(key: Seq<u8>) -> Option<TftpOptionKind> {
    if lower_seq(key) == spec_key_blksize() {
        Some(TftpOptionKind::Blocksize)
    } else if lower_seq(key) == spec_key_timeout() {
        Some(TftpOptionKind::Timeout)
    } else if lower_seq(key) == spec_key_tsize() {
        Some(TftpOptionKind::TransferSize)
    } else {
        None
    }
}

pub fn key_kind(key: &[u8]) -> (r: Option<TftpOptionKind>)
    ensures
        r == spec_key_kind(key@),
{
    proof {
        assert(key@.subrange(0, key@.len() as int) =~= key@);
    }
    let blk = key_blksize();
    if crate::bytes::range_eq_ci(key, 0, key.len(), blk.as_slice()) {
        proof {
            lemma_keys_fixed();
        }
        return Some(TftpOptionKind::Blocksize);
    }
    let tim = key_timeout();
    if crate::bytes::range_eq_ci(key, 0, key.len(), tim.as_slice()) {
        proof {
            lemma_keys_fixed();
        }
        return Some(TftpOptionKind::Timeout);
    }
    let tsz = key_tsize();
    if crate::bytes::range_eq_ci(key, 0, key.len(), tsz.as_slice()) {
        proof {
            lemma_keys_fixed();
        }
        return Some(TftpOptionKind::TransferSize);
    }
    proof {
        lemma_keys_fixed();
    }
    None
}

/// The recognized keys are already lower case and pairwise distinct.
proof fn lemma_keys_fixed()
    ensures
        lower_seq(spec_key_blksize()) == spec_key_blksize(),
        lower_seq(spec_key_timeout()) == spec_key_timeout(),
        lower_seq(spec_key_tsize()) == spec_key_tsize(),
        spec_key_blksize() != spec_key_timeout(),
        spec_key_blksize() != spec_key_tsize(),
        spec_key_timeout() != spec_key_tsize(),
{
    assert(lower_seq(spec_key_blksize()) =~= spec_key_blksize());
    assert(lower_seq(spec_key_timeout()) =~= spec_key_timeout());
    assert(lower_seq(spec_key_tsize()) =~= spec_key_tsize());
    assert(spec_key_blksize()[0] == 98 && spec_key_timeout()[0] == 116);
    assert(spec_key_blksize().len() == 7 && spec_key_tsize().len() == 5);
    assert(spec_key_timeout().len() == 7);
}

/// A requested option list holds the kind.
pub open spec fn spec_has_kind(reqd: Seq<TftpOption>, k: TftpOptionKind) -> bool {
    exists|i: int| 0 <= i < reqd.len() && (#[trigger] reqd[i]).spec_kind() == k
}

/// Every key of the OACK names a recognized option that was requested.
pub open spec fn spec_oack_keys_ok(reqd: Seq<TftpOption>, raw: Seq<(Seq<u8>, Seq<u8>)>) -> bool {
    forall|i: int|
        0 <= i < raw.len() ==> match spec_key_kind((#[trigger] raw[i]).0) {
            Some(k) => spec_has_kind(reqd, k),
            None => false,
        }
}

fn has_kind(reqd: &Vec<TftpOption>, k: TftpOptionKind) -> (r: bool)
    ensures
        r == spec_has_kind(reqd@, k),
{
    let mut i: usize = 0;
    while i < reqd.len()
        invariant
            i <= reqd@.len(),
            forall|j: int| 0 <= j < i ==> (#[trigger] reqd@[j]).spec_kind() != k,
        decreases reqd@.len() - i,
    {
        if reqd[i].kind() == k {
            return true;
        }
        i = i + 1;
    }
    false
}

/// Checks an OACK against what the client requested (RFC 2347: a server
/// may only acknowledge requested options) and parses the accepted values.
/// An unrequested or unknown key, or a bad value, is `InvalidOption`.
pub fn verify_oack_options(requested: &Vec<TftpOption>, raw: &Vec<(Vec<u8>, Vec<u8>)>) -> (r:
    Result<Vec<TftpOption>, OptionError>)
    ensures
        match r {
            Ok(acc) => spec_oack_keys_ok(requested@, pairs_view(raw@)) && spec_parse_tftp_options(
                pairs_view(raw@),
            ) == Ok::<_, OptionError>(acc@),
            Err(e) => e == OptionError::InvalidOption && (!spec_oack_keys_ok(
                requested@,
                pairs_view(raw@),
            ) || spec_parse_tftp_options(pairs_view(raw@)) == Err::<Seq<TftpOption>, _>(e)),
        },
{
    let ghost pv = pairs_view(raw@);
    let mut i: usize = 0;
    while i < raw.len()
        invariant
            i <= raw@.len(),
            pv == pairs_view(raw@),
            forall|j: int|
                0 <= j < i ==> match spec_key_kind((#[trigger] pv[j]).0) {
                    Some(k) => spec_has_kind(requested@, k),
                    None => false,
                },
        decreases raw@.len() - i,
    {
        let pair = &raw[i];
        proof {
            assert(pv[i as int] == (pair.0@, pair.1@));
        }
        match key_kind(pair.0.as_slice()) {
            Some(k) => {
                if !has_kind(requested, k) {
                    proof {
                        assert(!spec_oack_keys_ok(requested@, pv)) by {
                            assert(spec_key_kind(pv[i as int].0) == Some(k));
                        }
                    }
                    return Err(OptionError::InvalidOption);
                }
            },
            None => {
                proof {
                    assert(!spec_oack_keys_ok(requested@, pv)) by {
                        assert(spec_key_kind(pv[i as int].0) is None);
                    }
                }
                return Err(OptionError::InvalidOption);
            },
        }
        i = i + 1;
    }
    match crate::options::parse_tftp_options(raw) {
        Ok(acc) => Ok(acc),
        Err(e) => {
            proof {
                assert(e == OptionError::InvalidOption);
            }
            Err(e)
        },
    }
}

/// How the transfer proceeds after the server's first reply.
#[derive(Debug, Clone, Copy, PartialEq, Eq, Structural)]
pub enum FirstReply {
    /// The server acknowledged options; they are now in effect. A read
    /// request answers with ACK 0, a write request starts with DATA 1.
    OptionsAccepted,
    /// The server skipped negotiation and sent the first data block; the
    /// effective options reverted to the protocol defaults and the block
    /// must be fed to the receive machine.
    FirstData,
    /// The server skipped negotiation and acknowledged a write request;
    /// the effective options reverted to the protocol defaults.
    GoAhead,
}

/// Handles the server's first reply to a request (the datagram's source
/// must already have passed the IP check and been locked as the peer TID).
/// An OACK must acknowledge only requested options and puts them into
/// effect; a direct DATA (read) or ACK (write) reply reverts the
/// connection to protocol defaults; an ERROR surfaces as `PeerError`.
pub fn client_handle_first_reply(
    conn: &mut TftpConnState,
    requested: &Vec<TftpOption>,
    kind: RequestKind,
    pkt: &TftpPacket<'_>,
) -> (r: Result<FirstReply, RequestError>)
    requires
        pkt.wf(),
    ensures
        final(conn).tx_mode == old(conn).tx_mode,
        final(conn).peer == old(conn).peer,
        match r {
            Ok(FirstReply::OptionsAccepted) => {
                &&& pkt matches TftpPacket::OAck(o)
                &&& spec_oack_options(o@) matches Ok(raw)
                &&& spec_oack_keys_ok(requested@, raw)
                &&& spec_parse_tftp_options(raw) matches Ok(acc)
                &&& final(conn).options == TftpOptions::spec_apply(old(conn).options, acc)
            },
            Ok(FirstReply::FirstData) => pkt matches TftpPacket::Data(_) && kind
                == RequestKind::Rrq && final(conn).options == TftpOptions::spec_default(),
            Ok(FirstReply::GoAhead) => pkt matches TftpPacket::Ack(_) && kind == RequestKind::Wrq
                && final(conn).options == TftpOptions::spec_default(),
            Err(e) => final(conn).options == old(conn).options && match pkt {
                TftpPacket::OAck(o) => (spec_oack_options(o@) matches Err(pe) && e
                    == RequestError::ConnectionError(ConnectionError::InvalidResponse(pe))) || (
                spec_oack_options(o@) matches Ok(raw) && (!spec_oack_keys_ok(requested@, raw)
                    || spec_parse_tftp_options(raw) is Err) && e
                    == RequestError::OptionNegotiationFailed(OptionError::InvalidOption)),
                TftpPacket::Data(_) => kind == RequestKind::Wrq && e
                    == RequestError::ConnectionError(ConnectionError::UnexpectedPacket),
                TftpPacket::Ack(_) => kind == RequestKind::Rrq && e
                    == RequestError::ConnectionError(ConnectionError::UnexpectedPacket),
                TftpPacket::Error(p) => {
                    &&& e matches RequestError::ConnectionError(ce)
                    &&& ce matches ConnectionError::PeerError(t)
                    &&& t.code == crate::packet::spec_error_code(p@)
                },
                TftpPacket::Req(_) => e == RequestError::ConnectionError(
                    ConnectionError::UnexpectedPacket,
                ),
            },
        },
{
    match pkt {
        TftpPacket::OAck(o) => {
            let raw = match o.options() {
                Ok(raw) => raw,
                Err(pe) => {
                    return Err(
                        RequestError::ConnectionError(ConnectionError::InvalidResponse(pe)),
                    );
                },
            };
            let accepted = match verify_oack_options(requested, &raw) {
                Ok(a) => a,
                Err(_) => {
                    return Err(
                        RequestError::OptionNegotiationFailed(OptionError::InvalidOption),
                    );
                },
            };
            conn.set_options(&accepted);
            Ok(FirstReply::OptionsAccepted)
        },
        TftpPacket::Data(_) => {
            if let RequestKind::Wrq = kind {
                return Err(RequestError::ConnectionError(ConnectionError::UnexpectedPacket));
            }
            conn.options = TftpOptions::default();
            Ok(FirstReply::FirstData)
        },
        TftpPacket::Ack(_) => {
            if let RequestKind::Rrq = kind {
                return Err(RequestError::ConnectionError(ConnectionError::UnexpectedPacket));
            }
            conn.options = TftpOptions::default();
            Ok(FirstReply::GoAhead)
        },
        TftpPacket::Error(p) => Err(
            RequestError::ConnectionError(ConnectionError::PeerError(p.to_owned_error())),
        ),
        TftpPacket::Req(_) => Err(
            RequestError::ConnectionError(ConnectionError::UnexpectedPacket),
        ),
    }
}

} // verus!
